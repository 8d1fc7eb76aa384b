//! Listing a user's files: the query parameters with their clamps, the fixed set of
//! sort orders, the SQL text of the list and count statements (user values are
//! always bound, never spliced), and the page arithmetic.

use vstd::prelude::*;
use vstd::std_specs::iter::IteratorSpec;
use vstd::arithmetic::div_mod::{
    lemma_fundamental_div_mod, lemma_fundamental_div_mod_converse, lemma_mod_bound,
};
use crate::files::{response_of, File, FileResponse};

verus! {

/// The page size when the query gives none.
pub const DEFAULT_PAGE_SIZE: i64 = 20;

/// The largest page size.
pub const MAX_PAGE_SIZE: i64 = 100;

/// The query string of a listing request.
#[derive(Debug, Clone, PartialEq, Eq)]
pub struct FileQuery {
    pub q: Option<String>,
    pub sort: Option<String>,
    pub direction: Option<String>,
    pub page: Option<i64>,
    pub page_size: Option<i64>,
}

/// One page of a listing, with the totals of the whole filtered set.
#[derive(Debug, Clone, PartialEq, Eq)]
pub struct FileListResponse {
    pub files: Vec<FileResponse>,
    pub total: i64,
    pub page: i64,
    pub page_size: i64,
    pub total_pages: i64,
}

/// The column a listing is ordered by.
#[derive(Debug, Clone, Copy, PartialEq, Eq, Structural)]
pub enum SortKey {
    Name,
    Size,
    Date,
}

/// The direction of the order.
#[derive(Debug, Clone, Copy, PartialEq, Eq, Structural)]
pub enum SortDirection {
    Asc,
    Desc,
}

/// `sort=size` orders by size, `sort=date` by creation time, anything else by name.
pub open spec fn sort_key_of(sort: Option<Seq<char>>) -> SortKey {
    if sort == Some("size"@) {
        SortKey::Size
    } else if sort == Some("date"@) {
        SortKey::Date
    } else {
        SortKey::Name
    }
}

/// `direction=desc` is descending, anything else ascending.
pub open spec fn direction_of(direction: Option<Seq<char>>) -> SortDirection {
    if direction == Some("desc"@) {
        SortDirection::Desc
    } else {
        SortDirection::Asc
    }
}

/// The view of an optional string.
pub open spec fn opt_view(s: Option<String>) -> Option<Seq<char>> {
    match s {
        Some(t) => Some(t@),
        None => None,
    }
}

/// A page number raised to at least 1.
pub open spec fn page_in_range(page: i64) -> i64 {
    if page < 1 {
        1
    } else {
        page
    }
}

/// A page size brought within 1 and `MAX_PAGE_SIZE`.
pub open spec fn page_size_in_range(page_size: i64) -> i64 {
    if page_size < 1 {
        1
    } else if page_size > MAX_PAGE_SIZE {
        MAX_PAGE_SIZE
    } else {
        page_size
    }
}

/// The page asked for, at least 1.
pub open spec fn clamped_page(page: Option<i64>) -> i64 {
    match page {
        None => 1,
        Some(p) => page_in_range(p),
    }
}

/// The page size asked for, within 1 and `MAX_PAGE_SIZE`; `DEFAULT_PAGE_SIZE` when
/// not given.
pub open spec fn clamped_page_size(page_size: Option<i64>) -> i64 {
    match page_size {
        None => DEFAULT_PAGE_SIZE,
        Some(s) => page_size_in_range(s),
    }
}

/// The smallest integer at least `a / b`, for `b > 0`.
pub open spec fn ceil_div(a: int, b: int) -> int {
    (a + b - 1) / b
}

/// The SQL column of a sort key.
pub open spec fn sort_column(key: SortKey) -> Seq<char> {
    match key {
        SortKey::Name => "original_name"@,
        SortKey::Size => "size_bytes"@,
        SortKey::Date => "created_at"@,
    }
}

/// The SQL word of a direction.
pub open spec fn direction_word(direction: SortDirection) -> Seq<char> {
    match direction {
        SortDirection::Asc => "ASC"@,
        SortDirection::Desc => "DESC"@,
    }
}

/// The filter that the list and the count share: the owner, then the search text
/// when there is one. Both are bound parameters.
pub open spec fn filter_sql(search: bool) -> Seq<char> {
    "WHERE user_id = ?"@ + if search {
        " AND original_name LIKE ? ESCAPE '\\'"@
    } else {
        Seq::empty()
    }
}

/// The list statement: the filter, the chosen order with the id as tie-breaker so
/// that the order is total and pages do not overlap, and the bound limit and offset.
pub open spec fn list_sql(search: bool, key: SortKey, direction: SortDirection) -> Seq<char> {
    "SELECT * FROM files "@ + filter_sql(search) + " ORDER BY "@ + sort_column(key) + " "@
        + direction_word(direction) + ", id ASC LIMIT ? OFFSET ?"@
}

/// The count statement, over the same filter as the list.
pub open spec fn count_sql(search: bool) -> Seq<char> {
    "SELECT COUNT(*) FROM files "@ + filter_sql(search)
}

/// How one character of the search text stands in a LIKE pattern: the wildcards
/// `%` and `_` and the escape character itself are escaped, so that the pattern
/// matches the text literally.
pub open spec fn like_escaped(c: char) -> Seq<char> {
    if c == '\\' || c == '%' || c == '_' {
        seq!['\\', c]
    } else {
        seq![c]
    }
}

/// The escaped form of a search text.
pub open spec fn like_literal(s: Seq<char>) -> Seq<char>
    decreases s.len(),
{
    if s.len() == 0 {
        Seq::empty()
    } else {
        like_literal(s.drop_last()) + like_escaped(s.last())
    }
}

impl SortKey {
    /// The sort key of the `sort` parameter.
    pub fn parse(sort: Option<&str>) -> (r: SortKey)
        ensures
            r == sort_key_of(
                match sort {
                    Some(s) => Some(s@),
                    None => None,
                },
            ),
    {
        match sort {
            None => SortKey::Name,
            Some(s) => {
                let given = s.to_owned();
                if given == String::from_str("size") {
                    SortKey::Size
                } else if given == String::from_str("date") {
                    SortKey::Date
                } else {
                    SortKey::Name
                }
            },
        }
    }

    /// The SQL column of the key.
    pub fn column(&self) -> (r: &'static str)
        ensures
            r@ == sort_column(*self),
    {
        match self {
            SortKey::Name => "original_name",
            SortKey::Size => "size_bytes",
            SortKey::Date => "created_at",
        }
    }
}

impl SortDirection {
    /// The direction of the `direction` parameter.
    pub fn parse(direction: Option<&str>) -> (r: SortDirection)
        ensures
            r == direction_of(
                match direction {
                    Some(s) => Some(s@),
                    None => None,
                },
            ),
    {
        match direction {
            None => SortDirection::Asc,
            Some(s) => {
                let given = s.to_owned();
                if given == String::from_str("desc") {
                    SortDirection::Desc
                } else {
                    SortDirection::Asc
                }
            },
        }
    }

    /// The SQL word of the direction.
    pub fn keyword(&self) -> (r: &'static str)
        ensures
            r@ == direction_word(*self),
    {
        match self {
            SortDirection::Asc => "ASC",
            SortDirection::Desc => "DESC",
        }
    }
}

impl FileQuery {
    /// The page asked for; below 1 counts as 1.
    pub fn page(&self) -> (r: i64)
        ensures
            r == clamped_page(self.page),
            r >= 1,
    {
        match self.page {
            None => 1,
            Some(p) => clamp_page(p),
        }
    }

    /// The page size asked for, clamped to 1..=`MAX_PAGE_SIZE`; 20 when not given.
    pub fn page_size(&self) -> (r: i64)
        ensures
            r == clamped_page_size(self.page_size),
            1 <= r <= MAX_PAGE_SIZE,
    {
        match self.page_size {
            None => DEFAULT_PAGE_SIZE,
            Some(s) => clamp_page_size(s),
        }
    }

    /// The sort key asked for.
    pub fn sort_key(&self) -> (r: SortKey)
        ensures
            r == sort_key_of(opt_view(self.sort)),
    {
        match &self.sort {
            None => SortKey::parse(None),
            Some(s) => SortKey::parse(Some(s.as_str())),
        }
    }

    /// The direction asked for.
    pub fn sort_direction(&self) -> (r: SortDirection)
        ensures
            r == direction_of(opt_view(self.direction)),
    {
        match &self.direction {
            None => SortDirection::parse(None),
            Some(s) => SortDirection::parse(Some(s.as_str())),
        }
    }
}

/// A page number as a listing takes it: below 1 counts as 1.
pub fn clamp_page(page: i64) -> (r: i64)
    ensures
        r == page_in_range(page),
        r >= 1,
{
    if page < 1 {
        1
    } else {
        page
    }
}

/// A page size as a listing takes it: clamped to 1..=`MAX_PAGE_SIZE`.
pub fn clamp_page_size(page_size: i64) -> (r: i64)
    ensures
        r == page_size_in_range(page_size),
        1 <= r <= MAX_PAGE_SIZE,
{
    if page_size < 1 {
        1
    } else if page_size > MAX_PAGE_SIZE {
        MAX_PAGE_SIZE
    } else {
        page_size
    }
}

/// The rows skipped before a page, `(page - 1) * page_size` with both clamped as a
/// listing takes them; past `i64::MAX` it stays there, which skips every row all
/// the same.
pub fn page_offset(page: i64, page_size: i64) -> (r: i64)
    ensures
        r == if (page_in_range(page) - 1) * page_size_in_range(page_size) > i64::MAX {
            i64::MAX as int
        } else {
            (page_in_range(page) - 1) * page_size_in_range(page_size)
        },
{
    let page = clamp_page(page);
    let page_size = clamp_page_size(page_size);
    assert(0 <= (page - 1) * page_size <= (i64::MAX as int) * MAX_PAGE_SIZE) by (nonlinear_arith)
        requires
            0 <= page - 1 <= i64::MAX,
            1 <= page_size <= MAX_PAGE_SIZE,
    ;
    let wide: i128 = (page as i128 - 1) * page_size as i128;
    if wide > i64::MAX as i128 {
        i64::MAX
    } else {
        wide as i64
    }
}

/// The number of pages of `page_size` rows that `total` rows fill.
pub fn total_pages(total: i64, page_size: i64) -> (r: i64)
    requires
        total >= 0,
        page_size >= 1,
    ensures
        r == ceil_div(total as int, page_size as int),
{
    let q = total / page_size;
    let rem = total % page_size;
    proof {
        let t = total as int;
        let d = page_size as int;
        lemma_fundamental_div_mod(t, d);
        lemma_mod_bound(t, d);
        if rem == 0 {
            lemma_fundamental_div_mod_converse(t + d - 1, d, q as int, d - 1);
        } else {
            assert(t + d - 1 == (q + 1) * d + (rem - 1)) by (nonlinear_arith)
                requires
                    t == d * q + rem,
            ;
            lemma_fundamental_div_mod_converse(t + d - 1, d, q + 1, rem - 1);
            assert(q < t) by (nonlinear_arith)
                requires
                    t == d * q + rem,
                    rem > 0,
                    d >= 1,
                    t >= 0,
            ;
        }
    }
    if rem != 0 {
        q + 1
    } else {
        q
    }
}

/// The SQL text of the list statement. Its parameters are, in order: the owner, the
/// LIKE pattern when `search`, the page size and the offset.
pub fn list_files_sql(search: bool, key: SortKey, direction: SortDirection) -> (r: String)
    ensures
        r@ == list_sql(search, key, direction),
{
    let mut sql = String::from_str("SELECT * FROM files ");
    sql.append("WHERE user_id = ?");
    if search {
        sql.append(" AND original_name LIKE ? ESCAPE '\\'");
    }
    sql.append(" ORDER BY ");
    sql.append(key.column());
    sql.append(" ");
    sql.append(direction.keyword());
    sql.append(", id ASC LIMIT ? OFFSET ?");
    proof {
        if !search {
            assert("WHERE user_id = ?"@ + Seq::<char>::empty() =~= "WHERE user_id = ?"@);
        }
        assert(list_sql(search, key, direction) =~= "SELECT * FROM files "@ + "WHERE user_id = ?"@
            + (if search {
            " AND original_name LIKE ? ESCAPE '\\'"@
        } else {
            Seq::empty()
        }) + " ORDER BY "@ + sort_column(key) + " "@ + direction_word(direction)
            + ", id ASC LIMIT ? OFFSET ?"@);
    }
    sql
}

/// The SQL text of the count statement. Its parameters are the owner, then the LIKE
/// pattern when `search`.
pub fn count_files_sql(search: bool) -> (r: String)
    ensures
        r@ == count_sql(search),
{
    let mut sql = String::from_str("SELECT COUNT(*) FROM files ");
    sql.append("WHERE user_id = ?");
    if search {
        sql.append(" AND original_name LIKE ? ESCAPE '\\'");
    }
    proof {
        if !search {
            assert("WHERE user_id = ?"@ + Seq::<char>::empty() =~= "WHERE user_id = ?"@);
        }
        assert(count_sql(search) =~= "SELECT COUNT(*) FROM files "@ + "WHERE user_id = ?"@ + (
        if search {
            " AND original_name LIKE ? ESCAPE '\\'"@
        } else {
            Seq::empty()
        }));
    }
    sql
}

/// The LIKE pattern that matches names containing `q` as it is written.
pub fn like_pattern(q: &str) -> (r: String)
    ensures
        r@ == seq!['%'] + like_literal(q@) + seq!['%'],
{
    let mut out = String::new();
    out.push('%');
    for c in it: q.chars()
        invariant
            it.seq() == q@,
            out@ == seq!['%'] + like_literal(it.seq().take(it.index())),
    {
        proof {
            assert(it.seq().take(it.index() + 1).drop_last() =~= it.seq().take(it.index()));
            assert(it.seq().take(it.index() + 1).last() == c);
        }
        if c == '\\' || c == '%' || c == '_' {
            out.push('\\');
        }
        out.push(c);
        proof {
            assert(out@ =~= seq!['%'] + like_literal(it.seq().take(it.index() + 1)));
        }
    }
    proof {
        assert(q@.take(q@.len() as int) =~= q@);
    }
    out.push('%');
    out
}

impl FileListResponse {
    /// A page of records as clients see them, with the totals of the filtered set.
    pub fn new(files: Vec<File>, total: i64, page: i64, page_size: i64) -> (r: FileListResponse)
        requires
            total >= 0,
            page_size >= 1,
        ensures
            r.files@.len() == files@.len(),
            forall|i: int| 0 <= i < files@.len() ==> r.files@[i] == response_of(#[trigger] files@[i]),
            r.total == total,
            r.page == page,
            r.page_size == page_size,
            r.total_pages == ceil_div(total as int, page_size as int),
    {
        let mut responses: Vec<FileResponse> = Vec::new();
        let ghost all = files@;
        let mut rest = files;
        while rest.len() > 0
            invariant
                responses@.len() + rest@.len() == all.len(),
                rest@ =~= all.skip(responses@.len() as int),
                forall|i: int|
                    0 <= i < responses@.len() ==> #[trigger] responses@[i] == response_of(all[i]),
            decreases rest@.len(),
        {
            let f = rest.remove(0);
            responses.push(FileResponse::from(f));
            proof {
                assert(rest@ =~= all.skip(responses@.len() as int));
            }
        }
        FileListResponse {
            files: responses,
            total,
            page,
            page_size,
            total_pages: total_pages(total, page_size),
        }
    }
}

/// The rows of an ordered result of `total` rows that page `page` holds.
pub open spec fn page_rows(total: int, page: int, page_size: int) -> Set<int> {
    Set::new(|i: int| 0 <= i < total && (page - 1) * page_size <= i < page * page_size)
}

/// Paging agrees with the count: a page holds at most `page_size` rows and none
/// past `total`; every row of the `total` lies on exactly one page, a page between
/// 1 and `ceil_div(total, page_size)`; pages past that are empty. So paging through
/// all pages with the same filter and order yields each of the `total` rows once.
pub proof fn lemma_paging_covers_total(total: int, page_size: int, row: int, page: int)
    requires
        total >= 0,
        1 <= page_size <= MAX_PAGE_SIZE,
    ensures
        forall|i: int| #[trigger] page_rows(total, page, page_size).contains(i) ==> 0 <= i < total,
        page > ceil_div(total, page_size) ==> page_rows(total, page, page_size) =~= Set::empty(),
        0 <= row < total ==> {
            let p = row / page_size + 1;
            &&& 1 <= p <= ceil_div(total, page_size)
            &&& page_rows(total, p, page_size).contains(row)
            &&& (page_rows(total, page, page_size).contains(row) ==> page == p)
        },
{
    lemma_fundamental_div_mod(total + page_size - 1, page_size);
    lemma_mod_bound(total + page_size - 1, page_size);
    let c = ceil_div(total, page_size);
    assert(c * page_size >= total) by (nonlinear_arith)
        requires
            total + page_size - 1 == page_size * c + (total + page_size - 1) % page_size,
            (total + page_size - 1) % page_size < page_size,
    ;
    if page > c {
        assert((page - 1) * page_size >= c * page_size) by (nonlinear_arith)
            requires
                page - 1 >= c,
                page_size >= 1,
        ;
        assert forall|i: int| !page_rows(total, page, page_size).contains(i) by {}
    }
    if 0 <= row < total {
        let q = row / page_size;
        let m = row % page_size;
        lemma_fundamental_div_mod(row, page_size);
        lemma_mod_bound(row, page_size);
        assert(q >= 0) by (nonlinear_arith)
            requires
                row == page_size * q + m,
                0 <= m < page_size,
                row >= 0,
        ;
        assert(q * page_size <= row < (q + 1) * page_size) by (nonlinear_arith)
            requires
                row == page_size * q + m,
                0 <= m < page_size,
        ;
        assert(q < c) by (nonlinear_arith)
            requires
                q * page_size <= row,
                row < total,
                c * page_size >= total,
                page_size >= 1,
        ;
        assert(page_rows(total, q + 1, page_size).contains(row));
        if page_rows(total, page, page_size).contains(row) {
            assert((page - 1) * page_size <= row < page * page_size);
            assert(row == (page - 1) * page_size + (row - (page - 1) * page_size)) by (nonlinear_arith)
                ;
            assert(row - (page - 1) * page_size < page_size) by (nonlinear_arith)
                requires
                    row < page * page_size,
            ;
            lemma_fundamental_div_mod_converse(row, page_size, page - 1, row - (page - 1) * page_size);
        }
    }
}

} // verus!
