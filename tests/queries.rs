use gnedby::cli::ReportKind;
use gnedby::store::{list_query, stats_query, QueryParam};

const BASE: &str = "SELECT id, artist, album, genre, release_date, format, source_url, country, artwork_url FROM albums WHERE 1=1";

fn texts(params: &[QueryParam]) -> Vec<String> {
    params
        .iter()
        .map(|p| match p {
            QueryParam::Year(y) => format!("year {}", y),
            QueryParam::Text(t) => t.clone(),
        })
        .collect()
}

#[test]
fn unfiltered_listing_orders_by_identity() {
    let q = list_query(None, None, None, None, None, None);
    assert_eq!(q.sql, format!("{} ORDER BY id", BASE));
    assert!(q.params.is_empty());
}

#[test]
fn artist_filter_matches_by_containment() {
    let q = list_query(None, Some("Beatles"), None, None, None, Some("album"));
    assert_eq!(q.sql, format!("{} AND artist LIKE ? ORDER BY album, artist", BASE));
    assert_eq!(texts(&q.params), vec!["%Beatles%".to_string()]);
}

#[test]
fn year_filter_and_year_order() {
    let q = list_query(Some(1999), None, None, None, None, Some("year"));
    assert_eq!(
        q.sql,
        format!("{} AND strftime('%Y', release_date) = ? ORDER BY release_date DESC, artist, album", BASE)
    );
    assert_eq!(texts(&q.params), vec!["year 1999".to_string()]);
}

#[test]
fn filters_keep_their_order() {
    let q = list_query(None, None, Some("Jazz"), Some("lp"), Some("JPN"), Some("artist"));
    assert_eq!(
        q.sql,
        format!("{} AND genre LIKE ? AND format = ? AND country = ? ORDER BY artist, album", BASE)
    );
    assert_eq!(texts(&q.params), vec!["%Jazz%".to_string(), "lp".to_string(), "JPN".to_string()]);
}

#[test]
fn unknown_order_falls_back_to_identity() {
    let q = list_query(None, None, None, None, None, Some("colour"));
    assert_eq!(q.sql, format!("{} ORDER BY id", BASE));
}

#[test]
fn report_queries() {
    assert_eq!(
        stats_query(ReportKind::Artist),
        "SELECT artist, COUNT(*) as count FROM albums GROUP BY artist ORDER BY count DESC"
    );
    assert_eq!(
        stats_query(ReportKind::Year),
        "SELECT strftime('%Y', release_date) as year, COUNT(*) as count FROM albums GROUP BY year ORDER BY year ASC"
    );
    assert!(stats_query(ReportKind::Country).contains("GROUP BY country"));
}
