use crate::style::Style;
use crate::text::dec_rep;
use vstd::prelude::*;
use vstd::string::StrSliceExecFns;
use vstd::string::StringExecFns;

verus! {

/// One normalized search result, annotated with the id-namespace tag of the
/// provider that produced it and the style in effect at query time.
pub struct Movie {
    pub id: String,
    pub title: String,
    pub desc: String,
    pub year: Option<u16>,
    pub db: &'static str,
    pub style: Style,
}

/// The `(year)` segment of a rendered movie.
pub open spec fn year_segment(y: u16) -> Seq<char> {
    seq!['('] + dec_rep(y as nat) + seq![')']
}

/// The `[db-id]` segment of a rendered movie.
pub open spec fn id_segment(db: Seq<char>, id: Seq<char>) -> Seq<char> {
    seq!['['] + db + seq!['-'] + id + seq![']']
}

/// The segments the style selects, in their fixed order: title, year, id.
/// A year segment appears only when the movie has a year.
pub open spec fn segments(m: Movie) -> Seq<Seq<char>> {
    let t: Seq<Seq<char>> = if m.style.title {
        seq![m.title@]
    } else {
        Seq::empty()
    };
    let y: Seq<Seq<char>> = if m.style.year && m.year is Some {
        seq![year_segment(m.year->0)]
    } else {
        Seq::empty()
    };
    let d: Seq<Seq<char>> = if m.style.id {
        seq![id_segment(m.db@, m.id@)]
    } else {
        Seq::empty()
    };
    t + y + d
}

/// Segments joined by exactly one space, with no leading or trailing space.
pub open spec fn joined(parts: Seq<Seq<char>>) -> Seq<char>
    decreases parts.len(),
{
    if parts.len() == 0 {
        Seq::empty()
    } else if parts.len() == 1 {
        parts[0]
    } else {
        joined(parts.drop_last()) + seq![' '] + parts.last()
    }
}

proof fn lemma_joined_push(parts: Seq<Seq<char>>, p: Seq<char>)
    ensures
        joined(parts.push(p)) == if parts.len() == 0 {
            p
        } else {
            joined(parts) + seq![' '] + p
        },
{
    let q = parts.push(p);
    assert(q.drop_last() =~= parts);
    if parts.len() == 0 {
        assert(joined(q) == q[0]);
    }
}

/// Compact mode: the selected segments between two backticks.
pub open spec fn compact_view(m: Movie) -> Seq<char> {
    seq!['`'] + joined(segments(m)) + seq!['`']
}

/// The first hundred characters of a description, fewer if it is shorter.
pub open spec fn excerpt(desc: Seq<char>) -> Seq<char> {
    if desc.len() <= 100 {
        desc
    } else {
        desc.take(100)
    }
}

/// Full mode: compact mode, a newline, ` - `, the excerpt, and an ellipsis.
pub open spec fn full_view(m: Movie) -> Seq<char> {
    compact_view(m) + seq!['\n', ' ', '-', ' '] + excerpt(m.desc@) + seq!['.', '.', '.']
}

impl Movie {
    /// Render the single-line form used as the clipboard payload.
    pub fn format_compact(&self) -> (s: String)
        ensures
            s@ == compact_view(*self),
    {
        proof {
            reveal_strlit("`");
            reveal_strlit(" ");
            reveal_strlit("(");
            reveal_strlit(")");
            reveal_strlit("[");
            reveal_strlit("-");
            reveal_strlit("]");
        }
        let mut out = String::from_str("`");
        let mut first: bool = true;
        let ghost mut parts: Seq<Seq<char>> = Seq::empty();
        assert(out@ =~= seq!['`'] + joined(parts));

        if self.style.title {
            if !first {
                out.append(" ");
            }
            out.append(self.title.as_str());
            first = false;
            proof {
                lemma_joined_push(parts, self.title@);
                parts = parts.push(self.title@);
            }
            assert(out@ =~= seq!['`'] + joined(parts));
        }

        if self.style.year && self.year.is_some() {
            let y = self.year.unwrap();
            if !first {
                out.append(" ");
            }
            out.append("(");
            out.append(crate::text::u64_to_string(y as u64).as_str());
            out.append(")");
            first = false;
            proof {
                lemma_joined_push(parts, year_segment(y));
                parts = parts.push(year_segment(y));
            }
            assert(out@ =~= seq!['`'] + joined(parts));
        }

        if self.style.id {
            if !first {
                out.append(" ");
            }
            out.append("[");
            out.append(self.db);
            out.append("-");
            out.append(self.id.as_str());
            out.append("]");
            proof {
                lemma_joined_push(parts, id_segment(self.db@, self.id@));
                parts = parts.push(id_segment(self.db@, self.id@));
            }
            assert(out@ =~= seq!['`'] + joined(parts));
        }

        out.append("`");
        assert(parts =~= segments(*self));
        assert(out@ =~= compact_view(*self));
        out
    }

    /// Render the listing form: compact mode plus a description excerpt.
    pub fn format_full(&self) -> (s: String)
        ensures
            s@ == full_view(*self),
    {
        proof {
            reveal_strlit("\n - ");
            reveal_strlit("...");
        }
        let mut s = self.format_compact();
        s.append("\n - ");
        let n = self.desc.as_str().unicode_len();
        let end = if n <= 100 {
            n
        } else {
            100
        };
        s.append(self.desc.as_str().substring_char(0, end));
        s.append("...");
        assert(s@ =~= full_view(*self));
        s
    }
}

/// A style that selects nothing still has defined compact output: the two
/// backticks with nothing between them. Callers are expected to reject such
/// a style beforehand; see `Style::validate`.
pub proof fn lemma_unusable_style_renders_empty(m: Movie)
    requires
        !m.style.is_usable(),
    ensures
        compact_view(m) == seq!['`', '`'],
{
    assert(segments(m) =~= Seq::<Seq<char>>::empty());
    assert(compact_view(m) =~= seq!['`', '`']);
}

/// Law: rendering is a pure function of the movie's field values — two
/// movies that agree on every field render to the same compact and full
/// strings, so formatting the same movie twice yields identical output.
pub proof fn lemma_format_pure(a: Movie, b: Movie)
    requires
        a.id@ == b.id@,
        a.title@ == b.title@,
        a.desc@ == b.desc@,
        a.year == b.year,
        a.db@ == b.db@,
        a.style == b.style,
    ensures
        compact_view(a) == compact_view(b),
        full_view(a) == full_view(b),
{
    assert(segments(a) =~= segments(b));
}

} // verus!
