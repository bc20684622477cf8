use vstd::prelude::*;

use crate::sort::{resolve, resolve_spec, ColumnOrder, Sort};

use vstd::arithmetic::div_mod::lemma_fundamental_div_mod;

verus! {

/// Number of elements per page when a query names no page size.
pub fn default_per_page() -> (r: u64)
    ensures
        r == 20,
{
    20
}

/// One page of a query's result, with the counts a client needs to page on.
#[derive(Clone, Debug)]
pub struct Page<T> {
    pub content: Vec<T>,
    pub last: bool,
    pub total_elements: u64,
    pub total_pages: u64,
    pub size: u64,
    pub number: u64,
    pub first: bool,
    pub number_of_elements: u64,
    pub empty: bool,
}

/// How a client asks for a page.
#[derive(Clone, Debug)]
pub struct Pageable {
    pub options: PageableOptions,
    pub sort: Option<Sort>,
    pub per_page: u64,
}

/// A raw offset and limit, or a page index with a page size.
#[derive(Clone, Copy, Debug)]
pub enum PageableOptions {
    OffsetAndLimit((u64, u64)),
    Page(PageQuery),
}

#[derive(Clone, Copy, Debug)]
pub struct PageQuery {
    pub per_page: u64,
    pub index: u64,
}

/// Why a query could not be paged.
#[derive(Clone, Debug, PartialEq, Eq)]
pub enum PageError {
    /// A sort criterion names a column outside the permitted set.
    InvalidColumnName(String),
    InvalidDirectionName,
    /// A page-indexed query with a page size of zero.
    InvalidPageSize,
}

/// The rows a store is asked for: all of them, or a window of them.
#[derive(Clone, Copy, Debug, PartialEq, Eq)]
pub enum Window {
    Unbounded,
    Range { offset: u64, limit: u64 },
}

/// What the store has to run for one paged query: the column order, the
/// window of rows, and whether the total number of rows must be counted.
#[derive(Clone, Debug)]
pub struct QueryPlan {
    pub order: Vec<ColumnOrder>,
    pub window: Window,
    pub count_total: bool,
}

/// Number of pages of `per_page` rows that `total` rows fill, the last one
/// possibly partly.
pub open spec fn page_count(total: nat, per_page: nat) -> nat {
    if per_page == 0 {
        0
    } else if total % per_page == 0 {
        total / per_page
    } else {
        total / per_page + 1
    }
}

/// The rows of page `index` when `rows` are cut into pages of `per_page` rows.
pub open spec fn page_rows<T>(rows: Seq<T>, index: nat, per_page: nat) -> Seq<T> {
    let lo = if index * per_page <= rows.len() { index * per_page } else { rows.len() };
    let hi = if (index + 1) * per_page <= rows.len() { (index + 1) * per_page } else { rows.len() };
    rows.subrange(lo as int, hi as int)
}

/// Pages `0 .. k` of `rows`, one after the other.
pub open spec fn pages_concat<T>(rows: Seq<T>, per_page: nat, k: nat) -> Seq<T>
    decreases k,
{
    if k == 0 {
        Seq::empty()
    } else {
        pages_concat(rows, per_page, (k - 1) as nat) + page_rows(rows, (k - 1) as nat, per_page)
    }
}

impl<T> Page<T> {
    /// The envelope's invariant: its counts agree with its content.
    pub open spec fn wf(&self) -> bool {
        &&& self.number_of_elements == self.content.len()
        &&& self.empty == (self.number_of_elements == 0)
        &&& self.first == (self.number == 0)
    }

    /// Every row of an unpaged query, as a single page.
    pub fn unpaged(content: Vec<T>) -> (r: Page<T>)
        ensures
            r.wf(),
            r.content@ == content@,
            r.number_of_elements == content.len(),
            r.total_elements == content.len(),
            r.size == content.len(),
            r.total_pages == 1,
            r.number == 0,
            r.first,
            r.last,
    {
        let n = content.len() as u64;
        Page {
            content,
            last: true,
            total_elements: n,
            total_pages: 1,
            size: n,
            number: 0,
            first: true,
            number_of_elements: n,
            empty: n == 0,
        }
    }

    /// The rows of an offset/limit query. The total counts are not computed
    /// in this mode: `total_elements`, `total_pages` and `size` are left at
    /// zero and carry no meaning.
    pub fn offset_and_limit(content: Vec<T>) -> (r: Page<T>)
        ensures
            r.wf(),
            r.content@ == content@,
            r.number_of_elements == content.len(),
            r.total_elements == 0,
            r.total_pages == 0,
            r.size == 0,
            r.number == 0,
            r.first,
            r.last,
    {
        let n = content.len() as u64;
        Page {
            content,
            last: true,
            total_elements: 0,
            total_pages: 0,
            size: 0,
            number: 0,
            first: true,
            number_of_elements: n,
            empty: n == 0,
        }
    }

    /// Page `index` of a query with `total_elements` rows in all, cut into
    /// pages of `per_page` rows; `content` holds that page's rows.
    pub fn indexed(content: Vec<T>, index: u64, per_page: u64, total_elements: u64) -> (r: Page<T>)
        requires
            per_page > 0,
        ensures
            r.wf(),
            r.content@ == content@,
            r.number_of_elements == content.len(),
            r.total_elements == total_elements,
            r.total_pages == page_count(total_elements as nat, per_page as nat),
            r.size == per_page,
            r.number == index,
            r.first == (index == 0),
            r.last == (index + 1 == r.total_pages),
    {
        let total_pages = pages_for(total_elements, per_page);
        let n = content.len() as u64;
        Page {
            content,
            last: total_pages > 0 && index == total_pages - 1,
            total_elements,
            total_pages,
            size: per_page,
            number: index,
            first: index == 0,
            number_of_elements: n,
            empty: n == 0,
        }
    }

    /// The page that the store's rows make under `pageable`. `total_elements`
    /// is the store's count of all rows; it is read only for page-indexed
    /// queries.
    pub fn assemble(pageable: &Option<Pageable>, content: Vec<T>, total_elements: u64) -> (r: Result<
        Page<T>,
        PageError,
    >)
        ensures
            r is Err <==> page_size_invalid(pageable),
            r matches Ok(p) ==> {
                &&& p.wf()
                &&& p.content@ == content@
                &&& match pageable {
                    None => p.total_elements == content.len() && p.total_pages == 1 && p.last,
                    Some(pg) => match pg.options {
                        PageableOptions::OffsetAndLimit(_) => p.total_elements == 0
                            && p.total_pages == 0 && p.size == 0 && p.number == 0 && p.last,
                        PageableOptions::Page(q) => p.total_elements == total_elements
                            && p.total_pages == page_count(
                            total_elements as nat,
                            q.per_page as nat,
                        ) && p.size == q.per_page && p.number == q.index && p.last == (q.index
                            + 1 == p.total_pages),
                    },
                }
            },
            r matches Err(e) ==> e == PageError::InvalidPageSize,
    {
        match pageable {
            None => Ok(Page::unpaged(content)),
            Some(pg) => match &pg.options {
                PageableOptions::OffsetAndLimit(_) => Ok(Page::offset_and_limit(content)),
                PageableOptions::Page(q) => {
                    if q.per_page == 0 {
                        Err(PageError::InvalidPageSize)
                    } else {
                        Ok(Page::indexed(content, q.index, q.per_page, total_elements))
                    }
                },
            },
        }
    }

    /// Applies `f` to every element; every count is copied unchanged.
    pub fn map<U, F: Fn(T) -> U>(self, f: F) -> (r: Page<U>)
        requires
            forall|t: T| #[trigger] f.requires((t,)),
        ensures
            r.content.len() == self.content.len(),
            forall|i: int|
                0 <= i < self.content.len() ==> #[trigger] f.ensures(
                    (self.content[i],),
                    r.content[i],
                ),
            r.last == self.last,
            r.total_elements == self.total_elements,
            r.total_pages == self.total_pages,
            r.size == self.size,
            r.number == self.number,
            r.first == self.first,
            r.number_of_elements == self.number_of_elements,
            r.empty == self.empty,
            self.wf() ==> r.wf(),
    {
        let ghost old_content = self.content@;
        let mut rest = self.content;
        let mut mapped: Vec<U> = Vec::new();
        while rest.len() > 0
            invariant
                mapped.len() + rest.len() == old_content.len(),
                rest@ == old_content.subrange(mapped.len() as int, old_content.len() as int),
                forall|t: T| #[trigger] f.requires((t,)),
                forall|i: int|
                    0 <= i < mapped.len() ==> #[trigger] f.ensures((old_content[i],), mapped[i]),
            decreases rest.len(),
        {
            let x = rest.remove(0);
            let y = f(x);
            proof {
                assert(x == old_content[mapped.len() as int]);
            }
            mapped.push(y);
        }
        Page {
            content: mapped,
            last: self.last,
            total_elements: self.total_elements,
            total_pages: self.total_pages,
            size: self.size,
            number: self.number,
            first: self.first,
            number_of_elements: self.number_of_elements,
            empty: self.empty,
        }
    }
}

/// Whether `pageable` asks for pages of zero rows.
pub open spec fn page_size_invalid(pageable: &Option<Pageable>) -> bool {
    match pageable {
        Some(pg) => match pg.options {
            PageableOptions::Page(q) => q.per_page == 0,
            _ => false,
        },
        None => false,
    }
}

/// Number of pages that `total` rows fill at `per_page` rows a page.
pub fn pages_for(total: u64, per_page: u64) -> (r: u64)
    requires
        per_page > 0,
    ensures
        r == page_count(total as nat, per_page as nat),
{
    let whole = total / per_page;
    if total % per_page == 0 {
        whole
    } else {
        proof {
            assert(per_page >= 2);
            assert(whole <= total / 2) by (nonlinear_arith)
                requires
                    whole == total / per_page,
                    per_page >= 2,
            ;
        }
        whole + 1
    }
}

/// `index * per_page`, or the largest `u64` where the product does not fit:
/// an offset past every row.
pub open spec fn window_offset(index: u64, per_page: u64) -> u64 {
    if index * per_page <= u64::MAX {
        (index * per_page) as u64
    } else {
        u64::MAX
    }
}

/// What a store has to run for `pageable` over a table whose permitted sort
/// columns are `cols`: the resolved column order, the window of rows, and
/// whether the rows must be counted.
pub open spec fn plan_spec(pageable: Option<Pageable>, cols: Seq<String>) -> Result<
    (Seq<ColumnOrder>, Window, bool),
    PageError,
> {
    match pageable {
        None => Ok((Seq::empty(), Window::Unbounded, false)),
        Some(pg) => {
            let criteria = match pg.sort {
                Some(s) => s.criteria@,
                None => Seq::empty(),
            };
            match resolve_spec(criteria, cols) {
                Err(e) => Err(e),
                Ok(order) => match pg.options {
                    PageableOptions::OffsetAndLimit((offset, limit)) => Ok(
                        (order, Window::Range { offset, limit }, false),
                    ),
                    PageableOptions::Page(q) => if q.per_page == 0 {
                        Err(PageError::InvalidPageSize)
                    } else {
                        Ok(
                            (
                                order,
                                Window::Range {
                                    offset: window_offset(q.index, q.per_page),
                                    limit: q.per_page,
                                },
                                true,
                            ),
                        )
                    },
                },
            }
        },
    }
}

/// Decides what the store must run for a paged query: sort criteria are
/// resolved against the permitted columns `cols` (an unknown field is an
/// error), and the paging options become a window of rows.
pub fn plan(pageable: &Option<Pageable>, cols: &Vec<String>) -> (r: Result<QueryPlan, PageError>)
    ensures
        match r {
            Ok(p) => plan_spec(*pageable, cols@) == Ok::<_, PageError>(
                (p.order@, p.window, p.count_total),
            ),
            Err(e) => plan_spec(*pageable, cols@) == Err::<(Seq<ColumnOrder>, Window, bool), _>(e),
        },
{
    match pageable {
        None => Ok(QueryPlan { order: Vec::new(), window: Window::Unbounded, count_total: false }),
        Some(pg) => {
            let order = match &pg.sort {
                Some(s) => resolve(&s.criteria, cols),
                None => {
                    proof {
                        assert(resolve_spec(Seq::empty(), cols@) == Ok::<Seq<ColumnOrder>, PageError>(
                            Seq::empty(),
                        ));
                    }
                    Ok(Vec::new())
                },
            };
            match order {
                Err(e) => Err(e),
                Ok(order) => match pg.options {
                    PageableOptions::OffsetAndLimit((offset, limit)) => Ok(
                        QueryPlan { order, window: Window::Range { offset, limit }, count_total: false },
                    ),
                    PageableOptions::Page(q) => {
                        if q.per_page == 0 {
                            Err(PageError::InvalidPageSize)
                        } else {
                            let offset = match q.index.checked_mul(q.per_page) {
                                Some(o) => o,
                                None => u64::MAX,
                            };
                            Ok(
                                QueryPlan {
                                    order,
                                    window: Window::Range { offset, limit: q.per_page },
                                    count_total: true,
                                },
                            )
                        }
                    },
                },
            }
        },
    }
}

proof fn lemma_pages_concat_prefix<T>(rows: Seq<T>, per_page: nat, k: nat)
    requires
        per_page > 0,
    ensures
        pages_concat(rows, per_page, k) == rows.take(
            if k * per_page <= rows.len() { (k * per_page) as int } else { rows.len() as int },
        ),
    decreases k,
{
    if k == 0 {
        assert(rows.take(0) =~= Seq::<T>::empty());
    } else {
        let j = (k - 1) as nat;
        lemma_pages_concat_prefix(rows, per_page, j);
        assert(k * per_page == j * per_page + per_page) by (nonlinear_arith)
            requires
                j == k - 1,
        ;
        assert((j + 1) * per_page == k * per_page);
        let lo = if j * per_page <= rows.len() { (j * per_page) as int } else { rows.len() as int };
        let hi = if k * per_page <= rows.len() { (k * per_page) as int } else { rows.len() as int };
        assert(rows.take(lo) + rows.subrange(lo, hi) =~= rows.take(hi));
    }
}

/// Walking the pages of a page-indexed query from index 0 to the last one
/// and joining their rows gives back exactly the query's rows, each once and
/// in order: no row is missed and none repeats.
pub proof fn lemma_pages_cover_rows<T>(rows: Seq<T>, per_page: nat)
    requires
        per_page > 0,
    ensures
        pages_concat(rows, per_page, page_count(rows.len(), per_page)) == rows,
{
    let n = rows.len();
    let k = page_count(n, per_page);
    lemma_fundamental_div_mod(n as int, per_page as int);
    assert(k * per_page >= n) by (nonlinear_arith)
        requires
            n == per_page * (n / per_page) + n % per_page,
            0 <= n % per_page < per_page,
            k == (if n % per_page == 0 { n / per_page } else { n / per_page + 1 }),
    ;
    lemma_pages_concat_prefix(rows, per_page, k);
    assert(rows.take(n as int) =~= rows);
}

/// The rows that a store returns for a window: `limit` rows from `offset`,
/// cut short at the end of the table.
pub open spec fn window_rows<T>(rows: Seq<T>, offset: nat, limit: nat) -> Seq<T> {
    let lo = if offset <= rows.len() { offset } else { rows.len() };
    let hi = if offset + limit <= rows.len() { offset + limit } else { rows.len() };
    rows.subrange(lo as int, hi as int)
}

/// The window that `plan` asks for on a page-indexed query selects exactly
/// the rows of that page, also where the offset saturates.
pub proof fn lemma_window_selects_page<T>(rows: Seq<T>, index: u64, per_page: u64)
    requires
        per_page > 0,
        rows.len() <= u64::MAX,
    ensures
        window_rows(rows, window_offset(index, per_page) as nat, per_page as nat) == page_rows(
            rows,
            index as nat,
            per_page as nat,
        ),
{
    assert((index + 1) * per_page == index * per_page + per_page) by (nonlinear_arith);
    assert((index as nat + 1) * (per_page as nat) == (index as nat) * (per_page as nat) + per_page as nat) by (nonlinear_arith);
}

} // verus!
