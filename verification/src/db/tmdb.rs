use super::{percent_encoded, MovieDatabase};
use crate::error::Error;
use crate::movie::Movie;
use crate::style::Style;
use crate::text::{int_rep, parse_u16_spec};
use vstd::prelude::*;
use vstd::string::StrSliceExecFns;
use vstd::string::StringExecFns;

verus! {

pub struct TheMovieDatabase;

/// The decoded shape of one TMDB search response. Every field is optional
/// at the wire level.
pub struct SearchData {
    pub results: Option<Vec<SearchResult>>,
    pub status_message: Option<String>,
    pub status_code: Option<i32>,
}

/// One row of a TMDB search response.
pub struct SearchResult {
    pub id: Option<i32>,
    pub title: Option<String>,
    pub overview: Option<String>,
    pub release_date: Option<String>,
}

/// An absent result list stands for an empty one.
pub open spec fn rows_of(results: Option<Vec<SearchResult>>) -> Seq<SearchResult> {
    match results {
        Some(v) => v@,
        None => Seq::empty(),
    }
}

/// A row survives only when id, title and overview are all present.
pub open spec fn is_complete_row(s: SearchResult) -> bool {
    s.id is Some && s.title is Some && s.overview is Some
}

pub open spec fn kept_rows(rs: Seq<SearchResult>) -> Seq<SearchResult> {
    rs.filter(|s: SearchResult| is_complete_row(s))
}

/// The year of a release date: the part before the first `-`, read as an
/// integer. No dash, or an unreadable prefix, yields no year.
pub open spec fn tmdb_year(d: Seq<char>) -> Option<u16> {
    match d.index_of_first('-') {
        Some(i) => parse_u16_spec(d.take(i)),
        None => None,
    }
}

pub open spec fn year_of(release_date: Option<String>) -> Option<u16> {
    match release_date {
        Some(d) => tmdb_year(d@),
        None => None,
    }
}

/// How one normalized movie relates to the row it came from.
pub open spec fn movie_matches_row(m: Movie, s: SearchResult, style: Style) -> bool {
    &&& m.id@ == int_rep(s.id->0 as int)
    &&& m.title@ == s.title->0@
    &&& m.desc@ == s.overview->0@
    &&& m.year == year_of(s.release_date)
    &&& m.db@ == "tmdbid"@
    &&& m.style == style
}

/// Find the first `-` of a text, if it has one.
fn first_dash(s: &str) -> (r: Option<usize>)
    ensures
        match r {
            Some(i) => s@.index_of_first('-') == Some(i as int),
            None => s@.index_of_first('-') is None,
        },
{
    let n = s.unicode_len();
    let mut i: usize = 0;
    while i < n
        invariant
            i <= n,
            n == s@.len(),
            forall|j: int| 0 <= j < i ==> s@[j] != '-',
        decreases n - i,
    {
        if s.get_char(i) == '-' {
            proof {
                s@.index_of_first_ensures('-');
            }
            return Some(i);
        }
        i += 1;
    }
    proof {
        s@.index_of_first_ensures('-');
    }
    None
}

/// Extract the year from one release date.
pub fn extract_year(date: &str) -> (y: Option<u16>)
    ensures
        y == tmdb_year(date@),
{
    match first_dash(date) {
        Some(i) => {
            proof {
                date@.index_of_first_ensures('-');
            }
            crate::text::parse_u16(date.substring_char(0, i))
        },
        None => None,
    }
}

impl TheMovieDatabase {
    /// Turn one decoded TMDB response into the unified movie list: fail with
    /// the provider's status message when one is present, else with its
    /// stringified status code, else keep the complete rows in order.
    pub fn normalize(&self, style: Style, data: SearchData) -> (r: Result<Vec<Movie>, Error>)
        ensures
            data.status_message is Some ==> r == Err::<Vec<Movie>, Error>(
                Error::ProviderReported(data.status_message->0),
            ),
            data.status_message is None && data.status_code is Some ==> r is Err && (r->Err_0
                matches Error::ProviderReported(m) && m@ == int_rep(data.status_code->0 as int)),
            data.status_message is None && data.status_code is None ==> r is Ok && {
                let kept = kept_rows(rows_of(data.results));
                &&& r->Ok_0@.len() == kept.len()
                &&& forall|i: int|
                    0 <= i < kept.len() ==> movie_matches_row(
                        #[trigger] r->Ok_0@[i],
                        kept[i],
                        style,
                    )
            },
    {
        if let Some(msg) = data.status_message {
            return Err(Error::ProviderReported(msg));
        }
        if let Some(code) = data.status_code {
            return Err(Error::ProviderReported(crate::text::i32_to_string(code)));
        }
        let mut out: Vec<Movie> = Vec::new();
        match data.results {
            None => {
                proof {
                    reveal(Seq::filter);
                }
            },
            Some(rs) => {
                let mut i: usize = 0;
                proof {
                    reveal(Seq::filter);
                    assert(rs@.take(0) =~= Seq::<SearchResult>::empty());
                }
                while i < rs.len()
                    invariant
                        i <= rs.len(),
                        out@.len() == kept_rows(rs@.take(i as int)).len(),
                        forall|j: int|
                            0 <= j < out@.len() ==> movie_matches_row(
                                #[trigger] out@[j],
                                kept_rows(rs@.take(i as int))[j],
                                style,
                            ),
                    decreases rs.len() - i,
                {
                    let s = &rs[i];
                    let ghost pre = rs@.take(i as int);
                    let ghost post = rs@.take(i as int + 1);
                    proof {
                        reveal(Seq::filter);
                        assert(post.drop_last() =~= pre);
                        assert(post.last() == rs@[i as int]);
                    }
                    if let (Some(id), Some(title), Some(overview)) = (
                        &s.id,
                        &s.title,
                        &s.overview,
                    ) {
                        let year = match &s.release_date {
                            Some(d) => extract_year(d.as_str()),
                            None => None,
                        };
                        out.push(
                            Movie {
                                id: crate::text::i32_to_string(*id),
                                title: title.clone(),
                                desc: overview.clone(),
                                year,
                                db: "tmdbid",
                                style,
                            },
                        );
                        proof {
                            assert(kept_rows(post) =~= kept_rows(pre).push(rs@[i as int]));
                        }
                    } else {
                        proof {
                            assert(kept_rows(post) =~= kept_rows(pre));
                        }
                    }
                    i += 1;
                }
                proof {
                    assert(rs@.take(rs@.len() as int) =~= rs@);
                }
            },
        }
        Ok(out)
    }
}

impl MovieDatabase for TheMovieDatabase {
    open spec fn spec_name(&self) -> Seq<char> {
        "TMDB"@
    }

    open spec fn spec_full_name(&self) -> Seq<char> {
        "The Movie Database"@
    }

    open spec fn spec_id_name(&self) -> Seq<char> {
        "tmdbid"@
    }

    open spec fn spec_search_url(&self, api_key: Seq<char>, search: Seq<char>) -> Seq<char> {
        "https://api.themoviedb.org/3/search/movie?api_key="@ + api_key + "&query="@
            + percent_encoded(search)
    }

    fn name(&self) -> (r: &'static str) {
        "TMDB"
    }

    fn full_name(&self) -> (r: &'static str) {
        "The Movie Database"
    }

    fn id_name(&self) -> (r: &'static str) {
        "tmdbid"
    }

    fn search_url(&self, api_key: &str, search: &str) -> (r: String) {
        let mut url = String::from_str("https://api.themoviedb.org/3/search/movie?api_key=");
        url.append(api_key);
        url.append("&query=");
        url.append(super::encode_component(search).as_str());
        url
    }
}

} // verus!
