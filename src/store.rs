//! The queries that the local store runs: listing albums under one optional
//! filter in a chosen order, and counting albums per group for reports.

use crate::cli::ReportKind;
use crate::text::same_text;
use vstd::prelude::*;

verus! {

/// A value bound to a `?` placeholder of a query.
#[derive(Debug, Clone)]
pub enum QueryParam {
    /// A release year, compared with the year part of the release date.
    Year(i32),
    Text(String),
}

/// The view of a query value.
pub enum ParamView {
    Year(i32),
    Text(Seq<char>),
}

impl View for QueryParam {
    type V = ParamView;

    open spec fn view(&self) -> ParamView {
        match self {
            QueryParam::Year(y) => ParamView::Year(*y),
            QueryParam::Text(t) => ParamView::Text(t@),
        }
    }
}

/// A query text with the values of its placeholders, in order.
#[derive(Debug)]
pub struct AlbumQuery {
    pub sql: String,
    pub params: Vec<QueryParam>,
}

/// The selection of every album, before filters and order.
pub open spec fn list_base() -> Seq<char> {
    "SELECT id, artist, album, genre, release_date, format, source_url, country, artwork_url FROM albums WHERE 1=1"@
}

/// A text, when a condition holds; nothing otherwise.
pub open spec fn when(cond: bool, s: Seq<char>) -> Seq<char> {
    if cond {
        s
    } else {
        seq![]
    }
}

/// A text filter matches values that contain the text.
pub open spec fn contains_pattern(t: Seq<char>) -> Seq<char> {
    seq!['%'] + t + seq!['%']
}

/// The ordering named by `order_by`: album, artist or year; by identity
/// otherwise.
pub open spec fn order_clause(order_by: Option<Seq<char>>) -> Seq<char> {
    match order_by {
        Some(o) => if o == "album"@ {
            " ORDER BY album, artist"@
        } else if o == "artist"@ {
            " ORDER BY artist, album"@
        } else if o == "year"@ {
            " ORDER BY release_date DESC, artist, album"@
        } else {
            " ORDER BY id"@
        },
        None => " ORDER BY id"@,
    }
}

/// The view of an optional text argument.
pub open spec fn arg_view(t: Option<&str>) -> Option<Seq<char>> {
    match t {
        Some(s) => Some(s@),
        None => None,
    }
}

/// The listing query text for the given filters and order.
pub open spec fn list_sql(
    year: Option<i32>,
    artist: Option<&str>,
    genre: Option<&str>,
    format: Option<&str>,
    country: Option<&str>,
    order_by: Option<&str>,
) -> Seq<char> {
    list_base() + when(year is Some, " AND strftime('%Y', release_date) = ?"@) + when(
        artist is Some,
        " AND artist LIKE ?"@,
    ) + when(genre is Some, " AND genre LIKE ?"@) + when(format is Some, " AND format = ?"@) + when(
        country is Some,
        " AND country = ?"@,
    ) + order_clause(arg_view(order_by))
}

/// One placeholder value, when the filter is given.
pub open spec fn opt_param(p: Option<ParamView>) -> Seq<ParamView> {
    match p {
        Some(v) => seq![v],
        None => seq![],
    }
}

/// The placeholder values of the listing query, in the order of its filters.
pub open spec fn list_params(
    year: Option<i32>,
    artist: Option<&str>,
    genre: Option<&str>,
    format: Option<&str>,
    country: Option<&str>,
) -> Seq<ParamView> {
    opt_param(
        match year {
            Some(y) => Some(ParamView::Year(y)),
            None => None,
        },
    ) + opt_param(
        match artist {
            Some(a) => Some(ParamView::Text(contains_pattern(a@))),
            None => None,
        },
    ) + opt_param(
        match genre {
            Some(g) => Some(ParamView::Text(contains_pattern(g@))),
            None => None,
        },
    ) + opt_param(
        match format {
            Some(f) => Some(ParamView::Text(f@)),
            None => None,
        },
    ) + opt_param(
        match country {
            Some(c) => Some(ParamView::Text(c@)),
            None => None,
        },
    )
}

/// Appends a filter condition and its value, when the filter is given.
fn add_filter(q: &mut AlbumQuery, condition: &str, value: Option<QueryParam>)
    ensures
        final(q).sql@ == old(q).sql@ + when(value is Some, condition@),
        final(q).params@.map_values(|p: QueryParam| p@) == old(q).params@.map_values(|p: QueryParam| p@)
            + opt_param(
            match value {
                Some(v) => Some(v@),
                None => None,
            },
        ),
{
    let ghost before = q.params@;
    match value {
        Some(v) => {
            q.sql.append(condition);
            q.params.push(v);
            assert(q.params@.map_values(|p: QueryParam| p@) =~= before.map_values(|p: QueryParam| p@)
                + seq![v@]);
        },
        None => {
            assert(q.sql@ =~= q.sql@ + Seq::<char>::empty());
            assert(q.params@.map_values(|p: QueryParam| p@) =~= before.map_values(|p: QueryParam| p@)
                + Seq::<ParamView>::empty());
        },
    }
}

/// A text filter's value: the text surrounded by `%`.
fn pattern_of(t: &str) -> (r: String)
    ensures
        r@ == contains_pattern(t@),
{
    proof {
        reveal_strlit("%");
    }
    let r = String::from_str("%");
    let r = r.concat(t);
    let r = r.concat("%");
    assert(r@ =~= contains_pattern(t@));
    r
}

/// The ordering clause that `order_by` names.
fn order_text(order_by: Option<&str>) -> (r: &'static str)
    ensures
        r@ == order_clause(arg_view(order_by)),
{
    match order_by {
        Some(o) => if same_text(o, "album") {
            " ORDER BY album, artist"
        } else if same_text(o, "artist") {
            " ORDER BY artist, album"
        } else if same_text(o, "year") {
            " ORDER BY release_date DESC, artist, album"
        } else {
            " ORDER BY id"
        },
        None => " ORDER BY id",
    }
}

/// The query that lists albums: each given filter narrows the list (a year
/// matches the release date's year, artist and genre match by containment,
/// format and country exactly), and `order_by` picks the order.
pub fn list_query(
    year: Option<i32>,
    artist: Option<&str>,
    genre: Option<&str>,
    format: Option<&str>,
    country: Option<&str>,
    order_by: Option<&str>,
) -> (r: AlbumQuery)
    ensures
        r.sql@ == list_sql(year, artist, genre, format, country, order_by),
        r.params@.map_values(|p: QueryParam| p@) == list_params(year, artist, genre, format, country),
{
    let mut q = AlbumQuery {
        sql: String::from_str(
            "SELECT id, artist, album, genre, release_date, format, source_url, country, artwork_url FROM albums WHERE 1=1",
        ),
        params: Vec::new(),
    };
    assert(q.params@.map_values(|p: QueryParam| p@) =~= Seq::<ParamView>::empty());
    add_filter(
        &mut q,
        " AND strftime('%Y', release_date) = ?",
        match year {
            Some(y) => Some(QueryParam::Year(y)),
            None => None,
        },
    );
    add_filter(
        &mut q,
        " AND artist LIKE ?",
        match artist {
            Some(a) => Some(QueryParam::Text(pattern_of(a))),
            None => None,
        },
    );
    add_filter(
        &mut q,
        " AND genre LIKE ?",
        match genre {
            Some(g) => Some(QueryParam::Text(pattern_of(g))),
            None => None,
        },
    );
    add_filter(
        &mut q,
        " AND format = ?",
        match format {
            Some(f) => Some(QueryParam::Text(String::from_str(f))),
            None => None,
        },
    );
    add_filter(
        &mut q,
        " AND country = ?",
        match country {
            Some(c) => Some(QueryParam::Text(String::from_str(c))),
            None => None,
        },
    );
    q.sql.append(order_text(order_by));
    assert(q.sql@ =~= list_sql(year, artist, genre, format, country, order_by));
    assert(q.params@.map_values(|p: QueryParam| p@) =~= list_params(year, artist, genre, format, country));
    q
}

/// The query that counts albums per group for a report, largest groups
/// first (by year: oldest first).
pub open spec fn stats_sql(kind: ReportKind) -> Seq<char> {
    match kind {
        ReportKind::Artist => "SELECT artist, COUNT(*) as count FROM albums GROUP BY artist ORDER BY count DESC"@,
        ReportKind::Genre => "SELECT genre, COUNT(*) as count FROM albums GROUP BY genre ORDER BY count DESC"@,
        ReportKind::Format => "SELECT format, COUNT(*) as count FROM albums GROUP BY format ORDER BY count DESC"@,
        ReportKind::Country => "SELECT country, COUNT(*) as count FROM albums GROUP BY country ORDER BY count DESC"@,
        ReportKind::Year => "SELECT strftime('%Y', release_date) as year, COUNT(*) as count FROM albums GROUP BY year ORDER BY year ASC"@,
    }
}

pub fn stats_query(kind: ReportKind) -> (r: &'static str)
    ensures
        r@ == stats_sql(kind),
{
    match kind {
        ReportKind::Artist => "SELECT artist, COUNT(*) as count FROM albums GROUP BY artist ORDER BY count DESC",
        ReportKind::Genre => "SELECT genre, COUNT(*) as count FROM albums GROUP BY genre ORDER BY count DESC",
        ReportKind::Format => "SELECT format, COUNT(*) as count FROM albums GROUP BY format ORDER BY count DESC",
        ReportKind::Country => "SELECT country, COUNT(*) as count FROM albums GROUP BY country ORDER BY count DESC",
        ReportKind::Year => "SELECT strftime('%Y', release_date) as year, COUNT(*) as count FROM albums GROUP BY year ORDER BY year ASC",
    }
}

} // verus!
