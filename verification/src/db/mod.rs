use vstd::prelude::*;
use vstd::string::StringExecFns;

pub mod imdb;
pub mod tmdb;

use self::imdb::InternetMovieDatabase;
use self::tmdb::TheMovieDatabase;

verus! {

/// The percent-encoding of a text, as `urlencoding` computes it.
pub uninterp spec fn percent_encoded(s: Seq<char>) -> Seq<char>;

/// Relies on urlencoding::encode, which percent-encodes every byte except
/// ASCII alphanumerics and '-', '_', '.', '~'; the result is a function of
/// the input text alone.
#[verifier::external_body]
pub(crate) fn encode_component(s: &str) -> (r: String)
    ensures
        r@ == percent_encoded(s@),
        s@.len() == 0 ==> r@.len() == 0,
{
    urlencoding::encode(s).into_owned()
}

/// The capability every movie database offers: a short name (also the
/// credential-lookup key), a display name, the tag of its id namespace, and
/// the URL of a search request for a given key and search text.
pub trait MovieDatabase {
    spec fn spec_name(&self) -> Seq<char>;

    spec fn spec_full_name(&self) -> Seq<char>;

    spec fn spec_id_name(&self) -> Seq<char>;

    spec fn spec_search_url(&self, api_key: Seq<char>, search: Seq<char>) -> Seq<char>;

    fn name(&self) -> (r: &'static str)
        ensures
            r@ == self.spec_name(),
    ;

    fn full_name(&self) -> (r: &'static str)
        ensures
            r@ == self.spec_full_name(),
    ;

    fn id_name(&self) -> (r: &'static str)
        ensures
            r@ == self.spec_id_name(),
    ;

    /// The search endpoint for an already-encoded key and raw search text;
    /// the search text is percent-encoded before it enters the URL.
    fn search_url(&self, api_key: &str, search: &str) -> (r: String)
        ensures
            r@ == self.spec_search_url(api_key@, search@),
    ;
}

/// The line a selection menu shows for a database: name, dash, full name.
pub fn label<D: MovieDatabase>(db: &D) -> (r: String)
    ensures
        r@ == db.spec_name() + " - "@ + db.spec_full_name(),
{
    let mut s = String::from_str(db.name());
    s.append(" - ");
    s.append(db.full_name());
    s
}

/// The closed set of databases, as a tag that can be stored and matched on.
#[derive(Clone, Copy, PartialEq, Eq, Structural, Debug)]
pub enum Database {
    Imdb,
    Tmdb,
}

impl MovieDatabase for Database {
    open spec fn spec_name(&self) -> Seq<char> {
        match self {
            Database::Imdb => (InternetMovieDatabase).spec_name(),
            Database::Tmdb => (TheMovieDatabase).spec_name(),
        }
    }

    open spec fn spec_full_name(&self) -> Seq<char> {
        match self {
            Database::Imdb => (InternetMovieDatabase).spec_full_name(),
            Database::Tmdb => (TheMovieDatabase).spec_full_name(),
        }
    }

    open spec fn spec_id_name(&self) -> Seq<char> {
        match self {
            Database::Imdb => (InternetMovieDatabase).spec_id_name(),
            Database::Tmdb => (TheMovieDatabase).spec_id_name(),
        }
    }

    open spec fn spec_search_url(&self, api_key: Seq<char>, search: Seq<char>) -> Seq<char> {
        match self {
            Database::Imdb => (InternetMovieDatabase).spec_search_url(api_key, search),
            Database::Tmdb => (TheMovieDatabase).spec_search_url(api_key, search),
        }
    }

    fn name(&self) -> (r: &'static str) {
        match self {
            Database::Imdb => InternetMovieDatabase.name(),
            Database::Tmdb => TheMovieDatabase.name(),
        }
    }

    fn full_name(&self) -> (r: &'static str) {
        match self {
            Database::Imdb => InternetMovieDatabase.full_name(),
            Database::Tmdb => TheMovieDatabase.full_name(),
        }
    }

    fn id_name(&self) -> (r: &'static str) {
        match self {
            Database::Imdb => InternetMovieDatabase.id_name(),
            Database::Tmdb => TheMovieDatabase.id_name(),
        }
    }

    fn search_url(&self, api_key: &str, search: &str) -> (r: String) {
        match self {
            Database::Imdb => InternetMovieDatabase.search_url(api_key, search),
            Database::Tmdb => TheMovieDatabase.search_url(api_key, search),
        }
    }
}

/// The registry: every database, in the fixed order selection menus use.
pub fn databases() -> (v: Vec<Database>)
    ensures
        v@ == seq![Database::Imdb, Database::Tmdb],
{
    let mut v: Vec<Database> = Vec::new();
    v.push(Database::Imdb);
    v.push(Database::Tmdb);
    proof {
        assert(v@ =~= seq![Database::Imdb, Database::Tmdb]);
    }
    v
}

} // verus!
