use vstd::prelude::*;

use crate::page::PageError;

verus! {

#[derive(Clone, Copy, Debug, PartialEq, Eq, Structural)]
pub enum SortDirection {
    Asc,
    Desc,
}

/// One `"field,direction"` term of a sort request.
#[derive(Clone, Debug, PartialEq, Eq)]
pub struct SortCriterion {
    pub field: String,
    pub direction: SortDirection,
}

/// A sort request: criteria in order of precedence, left to right.
#[derive(Clone, Debug, PartialEq, Eq)]
pub struct Sort {
    pub criteria: Vec<SortCriterion>,
}

/// A sort criterion resolved against a permitted column list: `column` is the
/// column's position in that list.
#[derive(Clone, Copy, Debug, PartialEq, Eq)]
pub struct ColumnOrder {
    pub column: usize,
    pub direction: SortDirection,
}

pub open spec fn direction_text(d: SortDirection) -> Seq<char> {
    match d {
        SortDirection::Asc => seq!['a', 's', 'c'],
        SortDirection::Desc => seq!['d', 'e', 's', 'c'],
    }
}

/// The direction that a word names; only the lowercase words count.
pub open spec fn direction_of(s: Seq<char>) -> Option<SortDirection> {
    if s == direction_text(SortDirection::Asc) {
        Some(SortDirection::Asc)
    } else if s == direction_text(SortDirection::Desc) {
        Some(SortDirection::Desc)
    } else {
        None
    }
}

pub open spec fn is_first_comma(s: Seq<char>, c: int) -> bool {
    &&& 0 <= c < s.len()
    &&& s[c] == ','
    &&& forall|i: int| 0 <= i < c ==> s[i] != ','
}

/// Position of the first comma of `s`, or its length where it has none.
pub open spec fn first_comma(s: Seq<char>) -> int {
    if exists|c: int| is_first_comma(s, c) {
        choose|c: int| is_first_comma(s, c)
    } else {
        s.len() as int
    }
}

pub open spec fn comma_free(s: Seq<char>) -> bool {
    forall|i: int| 0 <= i < s.len() ==> s[i] != ','
}

/// The field of a `"field,direction"` text: what stands before the first comma.
pub open spec fn criterion_field(s: Seq<char>) -> Seq<char> {
    s.take(first_comma(s))
}

/// The direction word of a `"field,direction"` text: what stands between the
/// first and the second comma (or the end); empty where there is no comma.
pub open spec fn criterion_word(s: Seq<char>) -> Seq<char> {
    if first_comma(s) < s.len() {
        let rest = s.skip(first_comma(s) + 1);
        rest.take(first_comma(rest))
    } else {
        Seq::empty()
    }
}

pub open spec fn criterion_text(field: Seq<char>, d: SortDirection) -> Seq<char> {
    field + seq![','] + direction_text(d)
}

proof fn lemma_first_comma(s: Seq<char>, c: int)
    requires
        0 <= c <= s.len(),
        forall|i: int| 0 <= i < c ==> s[i] != ',',
        c < s.len() ==> s[c] == ',',
    ensures
        first_comma(s) == c,
{
    if c < s.len() {
        assert(is_first_comma(s, c));
        let d = choose|d: int| is_first_comma(s, d);
        if d < c {
            assert(s[d] != ',');
        } else if c < d {
            assert(s[c] != ',');
        }
    } else {
        assert(!exists|d: int| is_first_comma(s, d)) by {
            if exists|d: int| is_first_comma(s, d) {
                let d = choose|d: int| is_first_comma(s, d);
                assert(s[d] != ',');
            }
        }
    }
}

/// Position of the first comma of `s` at or after `from`, or the length of `s`.
fn comma_from(s: &str, from: usize) -> (r: usize)
    requires
        from <= s@.len(),
    ensures
        from <= r <= s@.len(),
        forall|i: int| from <= i < r ==> s@[i] != ',',
        r < s@.len() ==> s@[r as int] == ',',
{
    let n = s.unicode_len();
    let mut i = from;
    while i < n
        invariant
            n == s@.len(),
            from <= i <= n,
            forall|j: int| from <= j < i ==> s@[j] != ',',
        decreases n - i,
    {
        if s.get_char(i) == ',' {
            return i;
        }
        i = i + 1;
    }
    i
}

impl SortDirection {
    /// Reads `"asc"` or `"desc"`; any other word, other case included, is refused.
    pub fn parse(s: &str) -> (r: Option<SortDirection>)
        ensures
            r == direction_of(s@),
    {
        let t = String::from_str(s);
        let asc = String::from_str("asc");
        let desc = String::from_str("desc");
        proof {
            reveal_strlit("asc");
            reveal_strlit("desc");
            assert(asc@ =~= direction_text(SortDirection::Asc));
            assert(desc@ =~= direction_text(SortDirection::Desc));
        }
        if t == asc {
            Some(SortDirection::Asc)
        } else if t == desc {
            Some(SortDirection::Desc)
        } else {
            None
        }
    }

    /// The word of this direction: `"asc"` or `"desc"`.
    pub fn as_text(&self) -> (r: &'static str)
        ensures
            r@ == direction_text(*self),
    {
        proof {
            reveal_strlit("asc");
            reveal_strlit("desc");
        }
        match self {
            SortDirection::Asc => "asc",
            SortDirection::Desc => "desc",
        }
    }
}

impl SortCriterion {
    /// Reads a `"field,direction"` text. The field is what stands before the
    /// first comma; the direction word must follow it and be `asc` or `desc`.
    pub fn parse(s: &str) -> (r: Result<SortCriterion, PageError>)
        ensures
            r is Ok <==> direction_of(criterion_word(s@)) is Some,
            r matches Ok(c) ==> c.field@ == criterion_field(s@) && Some(c.direction)
                == direction_of(criterion_word(s@)),
            r matches Err(e) ==> e == PageError::InvalidDirectionName,
    {
        let n = s.unicode_len();
        let c = comma_from(s, 0);
        proof {
            lemma_first_comma(s@, c as int);
        }
        if c == n {
            proof {
                reveal_strlit("asc");
                reveal_strlit("desc");
                assert(criterion_word(s@) =~= Seq::<char>::empty());
                assert(direction_text(SortDirection::Asc).len() == 3);
            }
            return Err(PageError::InvalidDirectionName);
        }
        let d = comma_from(s, c + 1);
        proof {
            let rest = s@.skip(c + 1);
            assert forall|i: int| 0 <= i < d - (c + 1) implies rest[i] != ',' by {
                assert(rest[i] == s@[i + c + 1]);
            }
            lemma_first_comma(rest, d - (c + 1));
            assert(rest.take(d - (c + 1)) =~= s@.subrange(c + 1, d as int));
        }
        let field = String::from_str(s.substring_char(0, c));
        let word = s.substring_char(c + 1, d);
        match SortDirection::parse(word) {
            Some(direction) => Ok(SortCriterion { field, direction }),
            None => Err(PageError::InvalidDirectionName),
        }
    }

    /// The `"field,direction"` text of this criterion.
    pub fn to_text(&self) -> (r: String)
        ensures
            r@ == criterion_text(self.field@, self.direction),
    {
        let mut t = String::from_str(self.field.as_str());
        proof {
            reveal_strlit(",");
        }
        t.append(",");
        t.append(self.direction.as_text());
        t
    }
}

/// Writing a criterion out and reading it back gives the same criterion,
/// for every field that holds no comma.
pub proof fn lemma_criterion_round_trip(field: Seq<char>, d: SortDirection)
    requires
        comma_free(field),
    ensures
        criterion_field(criterion_text(field, d)) == field,
        direction_of(criterion_word(criterion_text(field, d))) == Some(d),
{
    let s = criterion_text(field, d);
    let k = field.len() as int;
    assert(s[k] == ',');
    lemma_first_comma(s, k);
    assert(s.take(k) =~= field);
    let rest = s.skip(k + 1);
    assert(rest =~= direction_text(d));
    lemma_first_comma(rest, rest.len() as int);
    assert(rest.take(rest.len() as int) =~= rest);
}

/// Position in `cols` of the first column named `f`.
pub open spec fn column_index(cols: Seq<String>, f: Seq<char>) -> Option<int>
    decreases cols.len(),
{
    if cols.len() == 0 {
        None
    } else {
        match column_index(cols.drop_last(), f) {
            Some(j) => Some(j),
            None => if cols.last()@ == f {
                Some(cols.len() - 1)
            } else {
                None
            },
        }
    }
}

/// The criteria resolved in order; the first one that names no permitted
/// column is the error.
pub open spec fn resolve_spec(criteria: Seq<SortCriterion>, cols: Seq<String>) -> Result<
    Seq<ColumnOrder>,
    PageError,
>
    decreases criteria.len(),
{
    if criteria.len() == 0 {
        Ok(Seq::empty())
    } else {
        match resolve_spec(criteria.drop_last(), cols) {
            Err(e) => Err(e),
            Ok(prev) => {
                let c = criteria.last();
                match column_index(cols, c.field@) {
                    None => Err(PageError::InvalidColumnName(c.field)),
                    Some(j) => Ok(prev.push(ColumnOrder { column: j as usize, direction: c.direction })),
                }
            },
        }
    }
}

/// Looks a field up in the permitted column list.
pub fn find_column(cols: &Vec<String>, field: &String) -> (r: Option<usize>)
    ensures
        r matches Some(j) ==> j < cols.len(),
        match column_index(cols@, field@) {
            Some(j) => r == Some(j as usize),
            None => r is None,
        },
{
    let mut j: usize = 0;
    while j < cols.len()
        invariant
            j <= cols.len(),
            column_index(cols@.take(j as int), field@) is None,
        decreases cols.len() - j,
    {
        proof {
            assert(cols@.take(j + 1).drop_last() =~= cols@.take(j as int));
        }
        if cols[j] == *field {
            proof {
                lemma_column_index_prefix(cols@, field@, (j + 1) as int);
            }
            return Some(j);
        }
        j = j + 1;
    }
    proof {
        assert(cols@.take(j as int) =~= cols@);
    }
    None
}

proof fn lemma_column_index_prefix(cols: Seq<String>, f: Seq<char>, k: int)
    requires
        0 < k <= cols.len(),
        column_index(cols.take(k), f) == Some(k - 1),
    ensures
        column_index(cols, f) == Some(k - 1),
    decreases cols.len(),
{
    if k < cols.len() {
        assert(cols.drop_last().take(k) =~= cols.take(k));
        lemma_column_index_prefix(cols.drop_last(), f, k);
    } else {
        assert(cols.take(k) =~= cols);
    }
}

/// Resolves each criterion against the permitted columns, in order.
pub fn resolve(criteria: &Vec<SortCriterion>, cols: &Vec<String>) -> (r: Result<
    Vec<ColumnOrder>,
    PageError,
>)
    ensures
        match r {
            Ok(v) => resolve_spec(criteria@, cols@) == Ok::<Seq<ColumnOrder>, PageError>(v@),
            Err(e) => resolve_spec(criteria@, cols@) == Err::<Seq<ColumnOrder>, PageError>(e),
        },
{
    let mut out: Vec<ColumnOrder> = Vec::new();
    let mut i: usize = 0;
    while i < criteria.len()
        invariant
            i <= criteria.len(),
            resolve_spec(criteria@.take(i as int), cols@) == Ok::<Seq<ColumnOrder>, PageError>(
                out@,
            ),
        decreases criteria.len() - i,
    {
        let c = &criteria[i];
        proof {
            assert(criteria@.take(i + 1).drop_last() =~= criteria@.take(i as int));
        }
        match find_column(cols, &c.field) {
            None => {
                proof {
                    lemma_resolve_prefix_err(criteria@, cols@, (i + 1) as int);
                }
                return Err(PageError::InvalidColumnName(c.field.clone()));
            },
            Some(j) => {
                out.push(ColumnOrder { column: j, direction: c.direction });
            },
        }
        i = i + 1;
    }
    proof {
        assert(criteria@.take(i as int) =~= criteria@);
    }
    Ok(out)
}

proof fn lemma_resolve_prefix_err(criteria: Seq<SortCriterion>, cols: Seq<String>, k: int)
    requires
        0 < k <= criteria.len(),
        resolve_spec(criteria.take(k), cols) is Err,
    ensures
        resolve_spec(criteria, cols) == resolve_spec(criteria.take(k), cols),
    decreases criteria.len(),
{
    if k < criteria.len() {
        assert(criteria.drop_last().take(k) =~= criteria.take(k));
        lemma_resolve_prefix_err(criteria.drop_last(), cols, k);
    } else {
        assert(criteria.take(k) =~= criteria);
    }
}

} // verus!
