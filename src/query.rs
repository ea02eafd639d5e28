use vstd::prelude::*;

verus! {

/// The projection that every game lookup asks the catalog for.
pub const GAME_FIELDS: &'static str = "fields name, summary, storyline, first_release_date, rating, cover.url, platforms.name, genres.name, videos.video_id, screenshots.url, artworks.url;";

/// The whole query that lists platforms: name order, at most 500 of them.
pub const PLATFORM_QUERY: &'static str = "fields name, generation, platform_type; limit 500; sort name asc;";

/// The number of games that a search by name asks for.
pub const SEARCH_LIMIT: i32 = 20;

/// The character of one decimal digit.
pub open spec fn digit_char(d: nat) -> char {
    ((d + 48) as u8) as char
}

/// The decimal digits of a natural number, most significant first.
pub open spec fn digits(n: nat) -> Seq<char>
    decreases n,
{
    if n < 10 {
        seq![digit_char(n)]
    } else {
        digits(n / 10) + seq![digit_char(n % 10)]
    }
}

/// The decimal text of an integer: its digits, after a `-` below zero.
pub open spec fn decimal(n: int) -> Seq<char> {
    if n < 0 {
        seq!['-'] + digits((-n) as nat)
    } else {
        digits(n as nat)
    }
}

/// Relies on the standard library's `Display` for `i64` (through `to_string`):
/// the plain decimal digits, after a `-` below zero.
#[verifier::external_body]
pub(crate) fn decimal_text(n: i64) -> (r: String)
    ensures
        r@ == decimal(n as int),
{
    n.to_string()
}

/// An optional clause: ` <keyword> <argument>;`, or nothing when the argument
/// is empty.
pub open spec fn optional_clause(keyword: Seq<char>, argument: Seq<char>) -> Seq<char> {
    if argument.len() == 0 {
        Seq::empty()
    } else {
        " "@ + keyword + " "@ + argument + ";"@
    }
}

/// The filtered listing query: the projection, then paging, then the filter,
/// then the sort order, each of the last two only when given.
pub open spec fn filter_query_text(filter: Seq<char>, sort: Seq<char>, limit: int, offset: int) -> Seq<char> {
    GAME_FIELDS@ + " limit "@ + decimal(limit) + "; offset "@ + decimal(offset) + ";"@
        + optional_clause("where"@, filter) + optional_clause("sort"@, sort)
}

/// The query that looks up one game by its id.
pub open spec fn by_id_query_text(id: int) -> Seq<char> {
    GAME_FIELDS@ + " where id = "@ + decimal(id) + ";"@
}

/// The decimal texts of the ids, separated by commas.
pub open spec fn joined_ids(ids: Seq<i64>) -> Seq<char>
    decreases ids.len(),
{
    if ids.len() == 0 {
        Seq::empty()
    } else if ids.len() == 1 {
        decimal(ids[0] as int)
    } else {
        joined_ids(ids.drop_last()) + ","@ + decimal(ids.last() as int)
    }
}

/// The query that looks up several games by their ids.
pub open spec fn by_ids_query_text(ids: Seq<i64>) -> Seq<char> {
    GAME_FIELDS@ + " where id = ("@ + joined_ids(ids) + ");"@
}

/// The query that searches games by name.
pub open spec fn search_query_text(name: Seq<char>) -> Seq<char> {
    GAME_FIELDS@ + " search \""@ + name + "\"; limit "@ + decimal(SEARCH_LIMIT as int) + ";"@
}

fn push_optional_clause(q: &mut String, keyword: &str, argument: &str)
    ensures
        final(q)@ == old(q)@ + optional_clause(keyword@, argument@),
{
    if !argument.is_empty() {
        q.append(" ");
        q.append(keyword);
        q.append(" ");
        q.append(argument);
        q.append(";");
    }
    assert(final(q)@ =~= old(q)@ + optional_clause(keyword@, argument@));
}

/// Builds the filtered listing query. Its clauses come in a fixed order:
/// projection, `limit`/`offset`, `where`, `sort`; `where` and `sort` appear
/// exactly when their argument is not empty.
pub fn filter_query(filter: &str, sort: &str, limit: i32, offset: i32) -> (r: String)
    ensures
        r@ == filter_query_text(filter@, sort@, limit as int, offset as int),
{
    let mut q = String::from_str(GAME_FIELDS);
    q.append(" limit ");
    let l = decimal_text(limit as i64);
    q.append(l.as_str());
    q.append("; offset ");
    let o = decimal_text(offset as i64);
    q.append(o.as_str());
    q.append(";");
    push_optional_clause(&mut q, "where", filter);
    push_optional_clause(&mut q, "sort", sort);
    assert(q@ =~= filter_query_text(filter@, sort@, limit as int, offset as int));
    q
}

/// Builds the query that looks up one game by id.
pub fn by_id_query(id: i64) -> (r: String)
    ensures
        r@ == by_id_query_text(id as int),
{
    let mut q = String::from_str(GAME_FIELDS);
    q.append(" where id = ");
    let t = decimal_text(id);
    q.append(t.as_str());
    q.append(";");
    assert(q@ =~= by_id_query_text(id as int));
    q
}

/// Builds the query that looks up several games by id. An empty list needs no
/// query at all: the answer is empty without asking the catalog.
pub fn by_ids_query(ids: &Vec<i64>) -> (r: Option<String>)
    ensures
        ids@.len() == 0 <==> r is None,
        r matches Some(q) ==> q@ == by_ids_query_text(ids@),
{
    if ids.len() == 0 {
        return None;
    }
    let mut q = String::from_str(GAME_FIELDS);
    q.append(" where id = (");
    let ghost start = q@;
    let mut i: usize = 0;
    while i < ids.len()
        invariant
            i <= ids@.len(),
            ids@.len() > 0,
            q@ == start + joined_ids(ids@.subrange(0, i as int)),
        decreases ids@.len() - i,
    {
        if i > 0 {
            q.append(",");
        }
        let t = decimal_text(ids[i]);
        q.append(t.as_str());
        proof {
            let next = ids@.subrange(0, i as int + 1);
            assert(next.drop_last() =~= ids@.subrange(0, i as int));
            if i == 0 {
                assert(ids@.subrange(0, 0) =~= Seq::<i64>::empty());
            }
        }
        i = i + 1;
    }
    q.append(");");
    assert(ids@.subrange(0, ids@.len() as int) =~= ids@);
    assert(q@ =~= by_ids_query_text(ids@));
    Some(q)
}

/// Builds the query that searches games by name, at most twenty of them.
pub fn search_query(name: &str) -> (r: String)
    ensures
        r@ == search_query_text(name@),
{
    let mut q = String::from_str(GAME_FIELDS);
    q.append(" search \"");
    q.append(name);
    q.append("\"; limit ");
    let t = decimal_text(SEARCH_LIMIT as i64);
    q.append(t.as_str());
    q.append(";");
    assert(q@ =~= search_query_text(name@));
    q
}

/// The query that lists the catalog's platforms.
pub fn platform_query() -> (r: String)
    ensures
        r@ == PLATFORM_QUERY@,
{
    String::from_str(PLATFORM_QUERY)
}

} // verus!
