//! Incremental construction of parameterized SQL: a growing statement text
//! with `$n` placeholders and the ordered list of values to bind. User
//! values never enter the statement text; only column and table identifiers
//! from the builders' own allow-lists are interpolated.

use vstd::prelude::*;

use crate::strutil::dec_str;

verus! {

/// A value bound to one placeholder.
#[derive(Debug, Clone)]
pub enum Param {
    Text(String),
    Boolean(bool),
    Int(i32),
    /// A 128-bit identifier, bound as a UUID.
    Id(u128),
}

/// The mathematical shadow of a bound value.
pub ghost enum ParamV {
    Text(Seq<char>),
    Boolean(bool),
    Int(i32),
    Id(u128),
}

impl View for Param {
    type V = ParamV;

    open spec fn view(&self) -> ParamV {
        match self {
            Param::Text(s) => ParamV::Text(s@),
            Param::Boolean(b) => ParamV::Boolean(*b),
            Param::Int(n) => ParamV::Int(*n),
            Param::Id(v) => ParamV::Id(*v),
        }
    }
}

/// The views of a parameter list.
pub open spec fn params_view(v: Seq<Param>) -> Seq<ParamV> {
    v.map_values(|p: Param| p@)
}

pub proof fn lemma_params_view_push(v: Seq<Param>, p: Param)
    ensures
        params_view(v.push(p)) =~= params_view(v).push(p@),
{
}

/// The text of the `n`-th placeholder.
pub open spec fn ph(n: nat) -> Seq<char> {
    seq!['$'] + dec_str(n)
}

/// `count` comma-separated placeholders starting at `$start`.
pub open spec fn ph_list(start: nat, count: nat) -> Seq<char>
    decreases count,
{
    if count == 0 {
        Seq::empty()
    } else if count == 1 {
        ph(start)
    } else {
        ph_list(start, (count - 1) as nat) + seq![','] + ph((start + count - 1) as nat)
    }
}

/// Renders `$n`.
pub fn placeholder_str(n: u128) -> (r: String)
    ensures
        r@ == ph(n as nat),
{
    let mut s = String::new();
    crate::strutil::push_char(&mut s, '$');
    let digits = dec_of_u128(n);
    let r = s.concat(digits.as_str());
    proof {
        assert(r@ =~= ph(n as nat));
    }
    r
}

fn dec_of_u128(n: u128) -> (s: String)
    ensures
        s@ == dec_str(n as nat),
    decreases n,
{
    if n < 10 {
        let mut s = String::new();
        crate::strutil::push_char(&mut s, (48 + (n as u8)) as char);
        proof {
            assert(s@ =~= dec_str(n as nat));
        }
        s
    } else {
        let mut s = dec_of_u128(n / 10);
        crate::strutil::push_char(&mut s, (48 + ((n % 10) as u8)) as char);
        s
    }
}

/// A statement under construction: the SQL text so far and the values bound
/// so far, in placeholder order.
pub struct SqlWriter {
    pub sql: String,
    pub params: Vec<Param>,
}

impl SqlWriter {
    pub fn new() -> (w: Self)
        ensures
            w.sql@ == Seq::<char>::empty(),
            w.params@ == Seq::<Param>::empty(),
    {
        SqlWriter { sql: String::new(), params: Vec::new() }
    }

    /// Appends literal statement text: never a user value.
    pub fn push_sql(&mut self, s: &str)
        ensures
            final(self).sql@ == old(self).sql@ + s@,
            final(self).params@ == old(self).params@,
    {
        self.sql.append(s);
    }

    /// Binds one more value without touching the text.
    pub fn push_param(&mut self, p: Param)
        ensures
            final(self).sql@ == old(self).sql@,
            final(self).params@ == old(self).params@.push(p),
    {
        self.params.push(p);
    }

    /// Appends ` AND {fragment}$n` and binds `p` as `$n`, the next free
    /// placeholder. `fragment` names a column and comparison from the
    /// builder's allow-list, e.g. `contacts.type = `.
    pub fn and_cond(&mut self, fragment: &str, p: Param)
        ensures
            final(self).sql@ == old(self).sql@ + " AND "@ + fragment@ + ph(
                old(self).params@.len() + 1,
            ),
            final(self).params@ == old(self).params@.push(p),
    {
        self.push_sql(" AND ");
        self.push_sql(fragment);
        let n = self.params.len();
        let phs = placeholder_str((n as u128) + 1);
        self.push_sql(phs.as_str());
        self.push_param(p);
    }

    /// Appends ` AND {col}{marker}$a,$b,...)` — `marker` is ` IN (` or
    /// ` NOT IN (` — binding every identifier in order.
    pub fn and_id_list(&mut self, col: &str, marker: &str, items: &Vec<u128>)
        requires
            items@.len() >= 1,
        ensures
            final(self).sql@ == old(self).sql@ + " AND "@ + col@ + marker@ + ph_list(
                old(self).params@.len() + 1,
                items@.len(),
            ) + ")"@,
            final(self).params@ == old(self).params@ + items@.map_values(
                |v: u128| Param::Id(v),
            ),
    {
        let ghost base_sql = self.sql@;
        let ghost base_params = self.params@;
        let ghost start = self.params@.len() + 1;
        self.push_sql(" AND ");
        self.push_sql(col);
        self.push_sql(marker);
        let mut j: usize = 0;
        while j < items.len()
            invariant
                0 <= j <= items@.len(),
                self.sql@ =~= base_sql + " AND "@ + col@ + marker@ + ph_list(start, j as nat),
                self.params@ =~= base_params + items@.take(j as int).map_values(
                    |v: u128| Param::Id(v),
                ),
                start == base_params.len() + 1,
            decreases items@.len() - j,
        {
            if j > 0 {
                self.push_sql(",");
                proof {
                    reveal_strlit(",");
                }
            }
            let n = self.params.len();
            let phs = placeholder_str((n as u128) + 1);
            self.push_sql(phs.as_str());
            self.push_param(Param::Id(items[j]));
            proof {
                assert(items@.take(j + 1).map_values(|v: u128| Param::Id(v)) =~= items@.take(
                    j as int,
                ).map_values(|v: u128| Param::Id(v)).push(Param::Id(items@[j as int])));
            }
            j = j + 1;
        }
        self.push_sql(")");
        proof {
            assert(items@.take(items@.len() as int) =~= items@);
        }
    }

    /// Appends ` AND {col}{marker}$a,$b,...)` binding every text in order.
    pub fn and_text_list(&mut self, col: &str, marker: &str, items: &Vec<String>)
        requires
            items@.len() >= 1,
        ensures
            final(self).sql@ == old(self).sql@ + " AND "@ + col@ + marker@ + ph_list(
                old(self).params@.len() + 1,
                items@.len(),
            ) + ")"@,
            final(self).params@ == old(self).params@ + items@.map_values(
                |s: String| Param::Text(s),
            ),
    {
        let ghost base_sql = self.sql@;
        let ghost base_params = self.params@;
        let ghost start = self.params@.len() + 1;
        self.push_sql(" AND ");
        self.push_sql(col);
        self.push_sql(marker);
        let mut j: usize = 0;
        while j < items.len()
            invariant
                0 <= j <= items@.len(),
                self.sql@ =~= base_sql + " AND "@ + col@ + marker@ + ph_list(start, j as nat),
                self.params@ =~= base_params + items@.take(j as int).map_values(
                    |s: String| Param::Text(s),
                ),
                start == base_params.len() + 1,
            decreases items@.len() - j,
        {
            if j > 0 {
                self.push_sql(",");
                proof {
                    reveal_strlit(",");
                }
            }
            let n = self.params.len();
            let phs = placeholder_str((n as u128) + 1);
            self.push_sql(phs.as_str());
            self.push_param(Param::Text(items[j].clone()));
            proof {
                assert(items@.take(j + 1).map_values(|s: String| Param::Text(s)) =~= items@.take(
                    j as int,
                ).map_values(|s: String| Param::Text(s)).push(Param::Text(items@[j as int])));
            }
            j = j + 1;
        }
        self.push_sql(")");
        proof {
            assert(items@.take(items@.len() as int) =~= items@);
        }
    }
}

/// The views of a list of string slices.
pub open spec fn strs_views(v: Seq<&str>) -> Seq<Seq<char>> {
    v.map_values(|s: &str| s@)
}

/// `frags[0]$a frags[1]$b ...`: each fragment followed by the next
/// placeholder.
pub open spec fn frag_ph_chain(frags: Seq<Seq<char>>, start: nat) -> Seq<char>
    decreases frags.len(),
{
    if frags.len() == 0 {
        Seq::empty()
    } else {
        frag_ph_chain(frags.drop_last(), start) + frags.last() + ph(
            (start + frags.len() - 1) as nat,
        )
    }
}

/// `s` wrapped in `%` wildcards for a substring match.
pub open spec fn like_wrapped(s: Seq<char>) -> Seq<char> {
    seq!['%'] + s + seq!['%']
}

/// Wraps a value in `%` wildcards for a substring match.
pub fn like_wrap(s: &str) -> (r: String)
    ensures
        r@ == like_wrapped(s@),
{
    let mut out = String::new();
    crate::strutil::push_char(&mut out, '%');
    out.append(s);
    crate::strutil::push_char(&mut out, '%');
    proof {
        assert(out@ =~= like_wrapped(s@));
    }
    out
}

// ---------------------------------------------------------------------------
// The shapes a builder appends, one spec function per kind of filter
// ---------------------------------------------------------------------------

/// A statement-in-progress at the spec level: the text and the bound views.
pub ghost struct SqlAcc {
    pub sql: Seq<char>,
    pub params: Seq<ParamV>,
}

/// The starting accumulator shared by a builder's two statements: a base
/// text and the tenant and caller parameters, always bound first.
pub open spec fn scoped_acc(base: Seq<char>, workspace_id: u128, user_id: u128) -> SqlAcc {
    SqlAcc { sql: base, params: seq![ParamV::Id(workspace_id), ParamV::Id(user_id)] }
}

/// ` AND {frag}$n` binding one text value, when the filter is present.
pub open spec fn step_text(v: Option<Seq<char>>, frag: Seq<char>, acc: SqlAcc) -> SqlAcc {
    match v {
        None => acc,
        Some(t) => SqlAcc {
            sql: acc.sql + " AND "@ + frag + ph(acc.params.len() + 1),
            params: acc.params.push(ParamV::Text(t)),
        },
    }
}

/// ` AND {frag}$n` binding the text wrapped in wildcards.
pub open spec fn step_like(v: Option<Seq<char>>, frag: Seq<char>, acc: SqlAcc) -> SqlAcc {
    match v {
        None => acc,
        Some(t) => SqlAcc {
            sql: acc.sql + " AND "@ + frag + ph(acc.params.len() + 1),
            params: acc.params.push(ParamV::Text(like_wrapped(t))),
        },
    }
}

/// ` AND {frag}$n` binding one boolean.
pub open spec fn step_bool(v: Option<bool>, frag: Seq<char>, acc: SqlAcc) -> SqlAcc {
    match v {
        None => acc,
        Some(b) => SqlAcc {
            sql: acc.sql + " AND "@ + frag + ph(acc.params.len() + 1),
            params: acc.params.push(ParamV::Boolean(b)),
        },
    }
}

/// ` AND {frag}$n` binding one integer.
pub open spec fn step_int(v: Option<i32>, frag: Seq<char>, acc: SqlAcc) -> SqlAcc {
    match v {
        None => acc,
        Some(n) => SqlAcc {
            sql: acc.sql + " AND "@ + frag + ph(acc.params.len() + 1),
            params: acc.params.push(ParamV::Int(n)),
        },
    }
}

/// ` AND {frag}$n` binding one identifier.
pub open spec fn step_id(v: Option<u128>, frag: Seq<char>, acc: SqlAcc) -> SqlAcc {
    match v {
        None => acc,
        Some(id) => SqlAcc {
            sql: acc.sql + " AND "@ + frag + ph(acc.params.len() + 1),
            params: acc.params.push(ParamV::Id(id)),
        },
    }
}

/// ` AND {col}{marker}$a,...)` binding every identifier, when the list is
/// not empty.
pub open spec fn step_id_list(
    items: Seq<u128>,
    col: Seq<char>,
    marker: Seq<char>,
    acc: SqlAcc,
) -> SqlAcc {
    if items.len() == 0 {
        acc
    } else {
        SqlAcc {
            sql: acc.sql + " AND "@ + col + marker + ph_list(acc.params.len() + 1, items.len())
                + ")"@,
            params: acc.params + items.map_values(|v: u128| ParamV::Id(v)),
        }
    }
}

/// ` AND {col}{marker}$a,...)` binding every text, when the list is not
/// empty.
pub open spec fn step_text_list(
    items: Seq<Seq<char>>,
    col: Seq<char>,
    marker: Seq<char>,
    acc: SqlAcc,
) -> SqlAcc {
    if items.len() == 0 {
        acc
    } else {
        SqlAcc {
            sql: acc.sql + " AND "@ + col + marker + ph_list(acc.params.len() + 1, items.len())
                + ")"@,
            params: acc.params + items.map_values(|t: Seq<char>| ParamV::Text(t)),
        }
    }
}

/// ` AND ({frags with placeholders})` binding the wildcard-wrapped search
/// text once per fragment, when a search was given.
pub open spec fn step_search(v: Option<Seq<char>>, frags: Seq<Seq<char>>, acc: SqlAcc) -> SqlAcc {
    match v {
        None => acc,
        Some(q) => SqlAcc {
            sql: acc.sql + " AND ("@ + frag_ph_chain(frags, acc.params.len() + 1) + ")"@,
            params: acc.params + Seq::new(frags.len(), |i: int| ParamV::Text(like_wrapped(q))),
        },
    }
}

/// A fixed clause with no bound values, when the flag demands it.
pub open spec fn step_raw(on: bool, piece: Seq<char>, acc: SqlAcc) -> SqlAcc {
    if on {
        SqlAcc { sql: acc.sql + piece, params: acc.params }
    } else {
        acc
    }
}

impl SqlWriter {
    /// The statement so far, at the spec level.
    pub open spec fn acc(self) -> SqlAcc {
        SqlAcc { sql: self.sql@, params: params_view(self.params@) }
    }

    /// Appends ` AND ({frags[0]}$a{frags[1]}$b...)` and binds `pattern`
    /// once per fragment.
    pub fn and_frag_group(&mut self, frags: &[&str], pattern: &str)
        requires
            frags@.len() >= 1,
        ensures
            final(self).sql@ == old(self).sql@ + " AND ("@ + frag_ph_chain(
                strs_views(frags@),
                old(self).params@.len() + 1,
            ) + ")"@,
            params_view(final(self).params@) == params_view(old(self).params@) + Seq::new(
                frags@.len(),
                |i: int| ParamV::Text(pattern@),
            ),
    {
        let ghost base_sql = self.sql@;
        let ghost base_params = self.params@;
        let ghost start = self.params@.len() + 1;
        self.push_sql(" AND (");
        let mut j: usize = 0;
        while j < frags.len()
            invariant
                0 <= j <= frags@.len(),
                self.sql@ =~= base_sql + " AND ("@ + frag_ph_chain(
                    strs_views(frags@.take(j as int)),
                    start,
                ),
                params_view(self.params@) =~= params_view(base_params) + Seq::new(
                    j as nat,
                    |i: int| ParamV::Text(pattern@),
                ),
                start == base_params.len() + 1,
            decreases frags@.len() - j,
        {
            proof {
                assert(params_view(self.params@).len() == base_params.len() + j);
            }
            let f = frags[j];
            self.push_sql(f);
            let n = self.params.len();
            let phs = placeholder_str((n as u128) + 1);
            self.push_sql(phs.as_str());
            let pval = Param::Text(pattern.to_owned());
            let ghost pg = pval;
            let ghost prev = self.params@;
            self.push_param(pval);
            proof {
                assert(strs_views(frags@.take(j + 1)).drop_last() =~= strs_views(
                    frags@.take(j as int),
                ));
                assert(strs_views(frags@.take(j + 1)).last() == frags@[j as int]@);
                lemma_params_view_push(prev, pg);
                assert(pg@ == ParamV::Text(pattern@));
                assert(params_view(self.params@) =~= params_view(base_params) + Seq::new(
                    (j + 1) as nat,
                    |i: int| ParamV::Text(pattern@),
                ));
            }
            j = j + 1;
        }
        self.push_sql(")");
        proof {
            assert(frags@.take(frags@.len() as int) =~= frags@);
            assert(strs_views(frags@.take(frags@.len() as int)) =~= strs_views(frags@));
        }
    }
}

/// A built statement pair: the page query, the count query, and the values
/// both bind in placeholder order.
#[derive(Debug, Clone)]
pub struct FilteredQuery {
    pub select_sql: String,
    pub count_sql: String,
    pub params: Vec<Param>,
}

impl SqlWriter {
    /// Applies `step_text`: one equality condition on an optional text.
    pub fn apply_text(&mut self, v: &Option<String>, frag: &str)
        ensures
            final(self).acc() == step_text(crate::filters::opt_str_view(*v), frag@, old(
                self,
            ).acc()),
    {
        let ghost prev = self.params@;
        match v {
            Some(t) => {
                self.and_cond(frag, Param::Text(t.clone()));
                proof {
                    lemma_params_view_push(prev, Param::Text(*t));
                    assert(final(self).acc() == step_text(
                        crate::filters::opt_str_view(*v),
                        frag@,
                        old(self).acc(),
                    ));
                }
            },
            None => {
            },
        }
    }

    /// Applies `step_like`: a substring condition on an optional text.
    pub fn apply_like(&mut self, v: &Option<String>, frag: &str)
        ensures
            final(self).acc() == step_like(crate::filters::opt_str_view(*v), frag@, old(
                self,
            ).acc()),
    {
        let ghost prev = self.params@;
        match v {
            Some(t) => {
                let pattern = like_wrap(t.as_str());
                let ghost pv = pattern@;
                self.and_cond(frag, Param::Text(pattern));
                proof {
                    assert(params_view(self.params@) =~= params_view(prev).push(
                        ParamV::Text(pv),
                    ));
                    assert(final(self).acc() == step_like(
                        crate::filters::opt_str_view(*v),
                        frag@,
                        old(self).acc(),
                    ));
                }
            },
            None => {
            },
        }
    }

    /// Applies `step_bool`.
    pub fn apply_bool(&mut self, v: &Option<bool>, frag: &str)
        ensures
            final(self).acc() == step_bool(*v, frag@, old(self).acc()),
    {
        let ghost prev = self.params@;
        match v {
            Some(b) => {
                self.and_cond(frag, Param::Boolean(*b));
                proof {
                    lemma_params_view_push(prev, Param::Boolean(*b));
                    assert(final(self).acc() == step_bool(*v, frag@, old(self).acc()));
                }
            },
            None => {
            },
        }
    }

    /// Applies `step_int`.
    pub fn apply_int(&mut self, v: &Option<i32>, frag: &str)
        ensures
            final(self).acc() == step_int(*v, frag@, old(self).acc()),
    {
        let ghost prev = self.params@;
        match v {
            Some(n) => {
                self.and_cond(frag, Param::Int(*n));
                proof {
                    lemma_params_view_push(prev, Param::Int(*n));
                    assert(final(self).acc() == step_int(*v, frag@, old(self).acc()));
                }
            },
            None => {
            },
        }
    }

    /// Applies `step_id`.
    pub fn apply_id(&mut self, v: &Option<u128>, frag: &str)
        ensures
            final(self).acc() == step_id(*v, frag@, old(self).acc()),
    {
        let ghost prev = self.params@;
        match v {
            Some(id) => {
                self.and_cond(frag, Param::Id(*id));
                proof {
                    lemma_params_view_push(prev, Param::Id(*id));
                    assert(final(self).acc() == step_id(*v, frag@, old(self).acc()));
                }
            },
            None => {
            },
        }
    }

    /// Applies `step_id_list`: an identifier IN / NOT IN condition, skipped
    /// for an empty list.
    pub fn apply_id_list(&mut self, items: &Vec<u128>, col: &str, marker: &str)
        ensures
            final(self).acc() == step_id_list(items@, col@, marker@, old(self).acc()),
    {
        if items.len() > 0 {
            let ghost prev = self.params@;
            self.and_id_list(col, marker, items);
            proof {
                assert(params_view(self.params@) =~= params_view(prev) + items@.map_values(
                    |v: u128| ParamV::Id(v),
                ));
                assert(final(self).acc() == step_id_list(items@, col@, marker@, old(self).acc()));
            }
        }
    }

    /// Applies `step_text_list`.
    pub fn apply_text_list(&mut self, items: &Vec<String>, col: &str, marker: &str)
        ensures
            final(self).acc() == step_text_list(
                crate::strutil::views_of(items@),
                col@,
                marker@,
                old(self).acc(),
            ),
    {
        if items.len() > 0 {
            let ghost prev = self.params@;
            self.and_text_list(col, marker, items);
            proof {
                assert(params_view(self.params@) =~= params_view(prev) + crate::strutil::views_of(
                    items@,
                ).map_values(|t: Seq<char>| ParamV::Text(t)));
                assert(final(self).acc() == step_text_list(
                    crate::strutil::views_of(items@),
                    col@,
                    marker@,
                    old(self).acc(),
                ));
            }
        }
    }

    /// Applies `step_search`: a parenthesized group of substring matches on
    /// the given fragments, all binding the same wrapped pattern.
    pub fn apply_search(&mut self, v: &Option<String>, frags: &Vec<&str>)
        requires
            frags@.len() >= 1,
        ensures
            final(self).acc() == step_search(
                crate::filters::opt_str_view(*v),
                strs_views(frags@),
                old(self).acc(),
            ),
    {
        match v {
            Some(q) => {
                let pattern = like_wrap(q.as_str());
                self.and_frag_group_vec(frags, pattern.as_str());
                proof {
                    assert(Seq::new(frags@.len(), |i: int| ParamV::Text(pattern@)) =~= Seq::new(
                        strs_views(frags@).len(),
                        |i: int| ParamV::Text(like_wrapped(q@)),
                    ));
                    assert(final(self).acc() == step_search(
                        crate::filters::opt_str_view(*v),
                        strs_views(frags@),
                        old(self).acc(),
                    ));
                }
            },
            None => {
            },
        }
    }

    /// Applies `step_search` with the lowered form of the search text, for
    /// builders that match case-insensitively.
    pub fn apply_search_lower(&mut self, v: &Option<String>, frags: &Vec<&str>)
        requires
            frags@.len() >= 1,
        ensures
            final(self).acc() == step_search(
                match crate::filters::opt_str_view(*v) {
                    Some(s) => Some(crate::strutil::lower_seq(s)),
                    None => None,
                },
                strs_views(frags@),
                old(self).acc(),
            ),
    {
        match v {
            Some(q) => {
                let lowered = crate::strutil::lower_str(q.as_str());
                let pattern = like_wrap(lowered.as_str());
                self.and_frag_group_vec(frags, pattern.as_str());
                proof {
                    assert(Seq::new(frags@.len(), |i: int| ParamV::Text(pattern@)) =~= Seq::new(
                        strs_views(frags@).len(),
                        |i: int| ParamV::Text(like_wrapped(crate::strutil::lower_seq(q@))),
                    ));
                    assert(final(self).acc() == step_search(
                        Some(crate::strutil::lower_seq(q@)),
                        strs_views(frags@),
                        old(self).acc(),
                    ));
                }
            },
            None => {
            },
        }
    }

    /// Applies `step_raw`: a fixed clause with no bound values.
    pub fn apply_raw(&mut self, on: bool, piece: &str)
        ensures
            final(self).acc() == step_raw(on, piece@, old(self).acc()),
    {
        if on {
            self.push_sql(piece);
        }
    }

    /// `and_frag_group` over a vector of fragments.
    pub fn and_frag_group_vec(&mut self, frags: &Vec<&str>, pattern: &str)
        requires
            frags@.len() >= 1,
        ensures
            final(self).sql@ == old(self).sql@ + " AND ("@ + frag_ph_chain(
                strs_views(frags@),
                old(self).params@.len() + 1,
            ) + ")"@,
            params_view(final(self).params@) == params_view(old(self).params@) + Seq::new(
                frags@.len(),
                |i: int| ParamV::Text(pattern@),
            ),
    {
        self.and_frag_group(frags.as_slice(), pattern);
    }
}

} // verus!
