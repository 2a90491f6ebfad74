use vstd::prelude::*;

use crate::schema::FilterOptions;
use crate::pattern::{
    contains, lemma_substring_pattern_matches, like_match, substring_pattern, substring_pattern_text,
};
use crate::sql::{decimal_text, placeholder, SqlArg, SqlValue, Statement};

verus! {

/// Rows per page when the request gives none, or one below 1.
pub const DEFAULT_LIMIT: i32 = 10;

/// The page shown when the request gives none, or one below 1.
pub const DEFAULT_PAGE: i32 = 1;

pub open spec fn effective_limit(limit: Option<i32>) -> int {
    if limit is Some && limit->0 >= 1 {
        limit->0 as int
    } else {
        DEFAULT_LIMIT as int
    }
}

pub open spec fn effective_page(page: Option<i32>) -> int {
    if page is Some && page->0 >= 1 {
        page->0 as int
    } else {
        DEFAULT_PAGE as int
    }
}

/// The rows of one page: `limit` rows after skipping `offset`.
#[derive(Debug, Clone, PartialEq)]
pub struct PageWindow {
    /// The page shown, counted from 1.
    pub page: i32,
    pub limit: i64,
    pub offset: i64,
}

/// Turns the page parameters into a row window; a missing, zero or negative
/// page or limit takes its default, so the offset is never negative.
pub fn page_window(page: Option<i32>, limit: Option<i32>) -> (w: PageWindow)
    ensures
        w.page == effective_page(page),
        w.limit == effective_limit(limit),
        w.offset == (effective_page(page) - 1) * effective_limit(limit),
        w.limit >= 1,
        w.offset >= 0,
{
    let l: i32 = match limit {
        Some(l) if l >= 1 => l,
        _ => DEFAULT_LIMIT,
    };
    let p: i32 = match page {
        Some(p) if p >= 1 => p,
        _ => DEFAULT_PAGE,
    };
    let pm: i64 = (p as i64) - 1;
    assert(0 <= pm * (l as i64) <= 0x7fff_ffff * 0x7fff_ffff) by (nonlinear_arith)
        requires
            0 <= pm < 0x7fff_ffff,
            1 <= l <= 0x7fff_ffff,
    ;
    PageWindow { page: p, limit: l as i64, offset: pm * (l as i64) }
}

/// A substring filter on one column; its value is never written into the
/// statement text, only bound.
#[derive(Debug, Clone, PartialEq)]
pub struct ColumnFilter {
    pub column: String,
    pub value: String,
}

impl View for ColumnFilter {
    type V = (Seq<char>, Seq<char>);

    open spec fn view(&self) -> (Seq<char>, Seq<char>) {
        (self.column@, self.value@)
    }
}

pub open spec fn filters_view(fs: Seq<ColumnFilter>) -> Seq<(Seq<char>, Seq<char>)> {
    fs.map_values(|f: ColumnFilter| f@)
}

pub open spec fn ilike_condition(column: Seq<char>, n: nat) -> Seq<char> {
    column + " ILIKE "@ + placeholder(n)
}

/// `c1 ILIKE $1 AND c2 ILIKE $2 AND ...` over the filtered columns.
pub open spec fn conditions(fs: Seq<(Seq<char>, Seq<char>)>) -> Seq<char>
    decreases fs.len(),
{
    if fs.len() == 0 {
        Seq::empty()
    } else if fs.len() == 1 {
        ilike_condition(fs[0].0, 1)
    } else {
        conditions(fs.drop_last()) + " AND "@ + ilike_condition(fs.last().0, fs.len())
    }
}

pub open spec fn where_clause(fs: Seq<(Seq<char>, Seq<char>)>) -> Seq<char> {
    if fs.len() == 0 {
        Seq::empty()
    } else {
        " WHERE "@ + conditions(fs)
    }
}

/// The text of a list query over `table`: the filters joined by AND, rows
/// ordered by id, then the window's limit and offset as the two last
/// placeholders.
pub open spec fn list_sql(table: Seq<char>, fs: Seq<(Seq<char>, Seq<char>)>) -> Seq<char> {
    "SELECT * FROM "@ + table + where_clause(fs) + " ORDER BY id LIMIT "@ + placeholder(
        fs.len() + 1,
    ) + " OFFSET "@ + placeholder(fs.len() + 2)
}

/// The arguments of a list query: one substring pattern per filter, in order,
/// then the limit and the offset.
pub open spec fn list_args(fs: Seq<(Seq<char>, Seq<char>)>, limit: int, offset: int) -> Seq<
    SqlArg,
> {
    fs.map_values(|f: (Seq<char>, Seq<char>)| SqlArg::Text(substring_pattern(f.1))) + seq![
        SqlArg::Int(limit),
        SqlArg::Int(offset),
    ]
}

fn append_placeholder(r: &mut String, n: u64)
    ensures
        final(r)@ == old(r)@ + placeholder(n as nat),
{
    proof {
        reveal_strlit("$");
    }
    r.append("$");
    let digits = decimal_text(n);
    r.append(digits.as_str());
}

/// Builds the list query over `table` with the given substring filters and
/// row window.
pub fn list_statement(table: &str, filters: &Vec<ColumnFilter>, window: &PageWindow) -> (s:
    Statement)
    requires
        filters@.len() + 2 <= usize::MAX,
    ensures
        s.text() == list_sql(table@, filters_view(filters@)),
        s.bound() == list_args(filters_view(filters@), window.limit as int, window.offset as int),
{
    let ghost fs = filters_view(filters@);
    let mut text = String::from_str("SELECT * FROM ");
    text.append(table);
    let mut args: Vec<SqlValue> = Vec::new();
    let n = filters.len();
    let mut i: usize = 0;
    while i < n
        invariant
            n == filters@.len(),
            n + 2 <= usize::MAX,
            i <= n,
            fs == filters_view(filters@),
            text@ == "SELECT * FROM "@ + table@ + where_clause(fs.subrange(0, i as int)),
            args@.map_values(|a: SqlValue| a@) == fs.subrange(0, i as int).map_values(
                |f: (Seq<char>, Seq<char>)| SqlArg::Text(substring_pattern(f.1)),
            ),
        decreases n - i,
    {
        let f = &filters[i];
        let ghost before = text@;
        let ghost pre = fs.subrange(0, i as int);
        let ghost post = fs.subrange(0, i + 1);
        if i == 0 {
            text.append(" WHERE ");
        } else {
            text.append(" AND ");
        }
        text.append(f.column.as_str());
        text.append(" ILIKE ");
        append_placeholder(&mut text, (i + 1) as u64);
        let pattern = substring_pattern_text(f.value.as_str());
        let ghost args_before = args@;
        args.push(SqlValue::Text(pattern));
        proof {
            assert(post.drop_last() =~= pre);
            assert(post.last() == f@);
            assert(post.len() == i + 1);
            if i == 0 {
                assert(where_clause(post) == " WHERE "@ + ilike_condition(f.column@, 1));
                assert(text@ =~= "SELECT * FROM "@ + table@ + where_clause(post));
            } else {
                assert(conditions(post) == conditions(pre) + " AND "@ + ilike_condition(
                    f.column@,
                    (i + 1) as nat,
                ));
                assert(text@ =~= "SELECT * FROM "@ + table@ + where_clause(post));
            }
            assert(args@ == args_before.push(SqlValue::Text(pattern)));
            assert(args@.map_values(|a: SqlValue| a@) =~= args_before.map_values(
                |a: SqlValue| a@,
            ).push(SqlArg::Text(substring_pattern(f.value@))));
            assert(args@.map_values(|a: SqlValue| a@) =~= post.map_values(
                |f: (Seq<char>, Seq<char>)| SqlArg::Text(substring_pattern(f.1)),
            ));
        }
        i = i + 1;
    }
    text.append(" ORDER BY id LIMIT ");
    append_placeholder(&mut text, (n + 1) as u64);
    text.append(" OFFSET ");
    append_placeholder(&mut text, (n + 2) as u64);
    let ghost pats = args@.map_values(|a: SqlValue| a@);
    args.push(SqlValue::Int(window.limit));
    args.push(SqlValue::Int(window.offset));
    proof {
        assert(fs.subrange(0, n as int) =~= fs);
        assert(text@ =~= list_sql(table@, fs));
        assert(args@.map_values(|a: SqlValue| a@) =~= list_args(
            fs,
            window.limit as int,
            window.offset as int,
        ));
    }
    Statement { sql: text, args }
}

/// The tables that the list endpoints read.
#[derive(Debug, Clone, Copy, PartialEq, Eq, Structural)]
pub enum Listing {
    Users,
    Teams,
    Projects,
    WorkItems,
}

pub open spec fn table_of(l: Listing) -> Seq<char> {
    match l {
        Listing::Users => "users"@,
        Listing::Teams => "teams"@,
        Listing::Projects => "projects"@,
        Listing::WorkItems => "work_items"@,
    }
}

pub open spec fn opt_filter(column: Seq<char>, value: Option<String>) -> Seq<(Seq<char>, Seq<char>)> {
    match value {
        Some(v) => seq![(column, v@)],
        None => Seq::empty(),
    }
}

/// The filters that a listing recognizes among the query parameters: users
/// are filtered by name and email, the other tables by none; every other
/// parameter is ignored.
pub open spec fn recognized_filters(l: Listing, opts: FilterOptions) -> Seq<(Seq<char>, Seq<char>)> {
    match l {
        Listing::Users => opt_filter("name"@, opts.name) + opt_filter("email"@, opts.email),
        _ => Seq::empty(),
    }
}

impl Listing {
    pub fn table_name(self) -> (r: &'static str)
        ensures
            r@ == table_of(self),
    {
        match self {
            Listing::Users => "users",
            Listing::Teams => "teams",
            Listing::Projects => "projects",
            Listing::WorkItems => "work_items",
        }
    }
}

fn push_filter(fs: &mut Vec<ColumnFilter>, column: &str, value: &Option<String>)
    ensures
        filters_view(final(fs)@) == filters_view(old(fs)@) + opt_filter(column@, *value),
{
    let ghost before = fs@;
    match value {
        Some(v) => {
            fs.push(ColumnFilter { column: String::from_str(column), value: v.clone() });
            assert(filters_view(fs@) =~= filters_view(before) + opt_filter(column@, *value));
        },
        None => {
            assert(filters_view(fs@) =~= filters_view(before) + opt_filter(column@, *value));
        },
    }
}

/// The substring filters that `listing` takes from the query parameters.
pub fn filters_for(listing: Listing, opts: &FilterOptions) -> (r: Vec<ColumnFilter>)
    ensures
        filters_view(r@) == recognized_filters(listing, *opts),
{
    let mut fs: Vec<ColumnFilter> = Vec::new();
    assert(filters_view(fs@) =~= Seq::<(Seq<char>, Seq<char>)>::empty());
    match listing {
        Listing::Users => {
            push_filter(&mut fs, "name", &opts.name);
            push_filter(&mut fs, "email", &opts.email);
        },
        _ => {},
    }
    fs
}

/// The query of a list endpoint: the listing's recognized substring filters
/// joined by AND, rows in ascending id order, and the page window of `opts`.
pub fn list_query(listing: Listing, opts: &FilterOptions) -> (s: Statement)
    ensures
        s.text() == list_sql(table_of(listing), recognized_filters(listing, *opts)),
        s.bound() == list_args(
            recognized_filters(listing, *opts),
            effective_limit(opts.limit),
            (effective_page(opts.page) - 1) * effective_limit(opts.limit),
        ),
{
    let fs = filters_for(listing, opts);
    let window = page_window(opts.page, opts.limit);
    list_statement(listing.table_name(), &fs, &window)
}

/// User input never reaches the statement text: two requests that set the
/// same filters, whatever their values and page parameters, give the same
/// text.
pub proof fn lemma_list_text_ignores_values(l: Listing, a: FilterOptions, b: FilterOptions)
    requires
        a.name is Some <==> b.name is Some,
        a.email is Some <==> b.email is Some,
    ensures
        list_sql(table_of(l), recognized_filters(l, a)) == list_sql(
            table_of(l),
            recognized_filters(l, b),
        ),
{
    let fa = recognized_filters(l, a);
    let fb = recognized_filters(l, b);
    assert(fa.len() == fb.len());
    assert(where_clause(fa) == where_clause(fb)) by {
        if l == Listing::Users {
            let na = opt_filter("name"@, a.name);
            let nb = opt_filter("name"@, b.name);
            let ea = opt_filter("email"@, a.email);
            let eb = opt_filter("email"@, b.email);
            if fa.len() == 1 {
                assert(fa[0].0 == fb[0].0);
            } else if fa.len() == 2 {
                assert(fa[0].0 == fb[0].0);
                assert(fa[1].0 == fb[1].0);
                assert(fa.drop_last()[0].0 == fb.drop_last()[0].0);
                assert(conditions(fa.drop_last()) == conditions(fb.drop_last()));
            }
        }
    }
}

/// Listing is repeatable: the same listing with the same parameters gives the
/// same statement, text and arguments, and the rows come in ascending id
/// order.
pub proof fn lemma_list_query_repeatable(l: Listing, a: FilterOptions, b: FilterOptions)
    requires
        a.page == b.page,
        a.limit == b.limit,
        opt_text_eq(a.name, b.name),
        opt_text_eq(a.email, b.email),
    ensures
        recognized_filters(l, a) == recognized_filters(l, b),
        list_sql(table_of(l), recognized_filters(l, a)) == list_sql(
            table_of(l),
            recognized_filters(l, b),
        ),
        list_args(
            recognized_filters(l, a),
            effective_limit(a.limit),
            (effective_page(a.page) - 1) * effective_limit(a.limit),
        ) == list_args(
            recognized_filters(l, b),
            effective_limit(b.limit),
            (effective_page(b.page) - 1) * effective_limit(b.limit),
        ),
{
    assert(opt_filter("name"@, a.name) =~= opt_filter("name"@, b.name));
    assert(opt_filter("email"@, a.email) =~= opt_filter("email"@, b.email));
}

pub open spec fn opt_text_eq(a: Option<String>, b: Option<String>) -> bool {
    match (a, b) {
        (Some(x), Some(y)) => x@ == y@,
        (None, None) => true,
        _ => false,
    }
}

/// A name filter on the user listing keeps exactly the users whose name
/// contains the given text: the statement's first condition is
/// `name ILIKE $1`, and `$1` is bound to a pattern that, under LIKE's rules,
/// matches exactly the texts that contain it.
pub proof fn lemma_user_name_filter(opts: FilterOptions, limit: int, offset: int, t: Seq<char>)
    requires
        opts.name is Some,
    ensures
        ({
            let fs = recognized_filters(Listing::Users, opts);
            &&& exists|tail: Seq<char>|
                where_clause(fs) == " WHERE "@ + ilike_condition("name"@, 1) + tail
            &&& list_args(fs, limit, offset)[0] == SqlArg::Text(substring_pattern(opts.name->0@))
            &&& like_match(substring_pattern(opts.name->0@), t) <==> contains(t, opts.name->0@)
        }),
{
    let fs = recognized_filters(Listing::Users, opts);
    let v = opts.name->0@;
    assert(fs[0] == ("name"@, v));
    let head = " WHERE "@ + ilike_condition("name"@, 1);
    if fs.len() == 1 {
        assert(where_clause(fs) =~= head + Seq::<char>::empty());
    } else {
        assert(fs.len() == 2);
        assert(fs.drop_last().len() == 1);
        assert(fs.drop_last()[0] == fs[0]);
        let tail = " AND "@ + ilike_condition(fs.last().0, 2);
        assert(conditions(fs.drop_last()) == ilike_condition("name"@, 1));
        assert(conditions(fs) == conditions(fs.drop_last()) + " AND "@ + ilike_condition(fs.last().0, 2));
        assert(where_clause(fs) =~= head + tail);
    }
    lemma_substring_pattern_matches(v, t);
}

} // verus!
