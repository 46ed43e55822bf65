use vstd::prelude::*;

verus! {

/// Role of a column in the statements built for a table.
#[derive(Debug, Clone, Copy, PartialEq, Eq, Structural)]
pub enum ColumnNote {
    Primary,
    Extra,
    Regular,
}

/// Maps a logical field name to its SQL column text.
#[derive(Debug, Clone)]
pub struct ColumnMapper {
    pub name: String,
    pub column: String,
    pub note: ColumnNote,
}

impl Default for ColumnMapper {
    fn default() -> (r: Self)
        ensures
            r.name@ == Seq::<char>::empty(),
            r.column@ == Seq::<char>::empty(),
            r.note == ColumnNote::Regular,
    {
        ColumnMapper { name: String::new(), column: String::new(), note: ColumnNote::Regular }
    }
}

/// A plain column: the SQL text is the field name itself.
pub fn column(name: &'static str) -> (r: ColumnMapper)
    ensures
        r.name@ == name@,
        r.column@ == name@,
        r.note == ColumnNote::Regular,
{
    ColumnMapper { name: String::from_str(name), column: String::from_str(name), note: ColumnNote::Regular }
}

/// A column whose SQL text is the field name between double quotes.
pub fn quoted(name: &'static str) -> (r: ColumnMapper)
    ensures
        r.name@ == name@,
        r.column@ == seq!['"'] + name@ + seq!['"'],
        r.note == ColumnNote::Regular,
{
    let mut col = String::from_str("\"");
    col.append(name);
    col.append("\"");
    proof {
        reveal_strlit("\"");
    }
    ColumnMapper { name: String::from_str(name), column: col, note: ColumnNote::Regular }
}

/// The character of a decimal digit.
pub open spec fn digit_char(d: nat) -> char {
    if d == 0 { '0' } else if d == 1 { '1' } else if d == 2 { '2' } else if d == 3 { '3' }
    else if d == 4 { '4' } else if d == 5 { '5' } else if d == 6 { '6' } else if d == 7 { '7' }
    else if d == 8 { '8' } else { '9' }
}

/// Decimal notation of a natural number, without leading zeros.
pub open spec fn decimal(n: nat) -> Seq<char>
    decreases n,
{
    if n < 10 {
        seq![digit_char(n)]
    } else {
        decimal(n / 10).push(digit_char(n % 10))
    }
}

/// A numbered statement parameter: `$n`.
pub open spec fn placeholder(n: nat) -> Seq<char> {
    seq!['$'] + decimal(n)
}

/// The parts joined by a separator (nothing for no parts).
pub open spec fn join(parts: Seq<Seq<char>>, sep: Seq<char>) -> Seq<char>
    decreases parts.len(),
{
    if parts.len() == 0 {
        Seq::empty()
    } else if parts.len() == 1 {
        parts[0]
    } else {
        join(parts.drop_last(), sep) + sep + parts.last()
    }
}

/// Whether a column takes part in a statement built with `all_columns`.
pub open spec fn included(c: ColumnMapper, all_columns: bool) -> bool {
    all_columns || c.note != ColumnNote::Extra
}

/// SQL text of the columns that take part, in order, leaving out those named
/// `skip` when it is given.
pub open spec fn targets(cols: Seq<ColumnMapper>, all_columns: bool, skip: Option<Seq<char>>) -> Seq<Seq<char>>
    decreases cols.len(),
{
    if cols.len() == 0 {
        Seq::empty()
    } else {
        let c = cols.last();
        let rest = targets(cols.drop_last(), all_columns, skip);
        if included(c, all_columns) && !(skip is Some && skip->0 == c.name@) {
            rest.push(c.column@)
        } else {
            rest
        }
    }
}

/// The column text used to look up `lookup`: that of the last column named
/// so, or `lookup` itself when there is none.
pub open spec fn lookup_column(cols: Seq<ColumnMapper>, lookup: Seq<char>) -> Seq<char>
    decreases cols.len(),
{
    if cols.len() == 0 {
        lookup
    } else if cols.last().name@ == lookup {
        cols.last().column@
    } else {
        lookup_column(cols.drop_last(), lookup)
    }
}

/// `$1, $2, ..., $n`.
pub open spec fn placeholders(n: nat) -> Seq<Seq<char>> {
    Seq::new(n, |i: int| placeholder((i + 1) as nat))
}

/// ` col = $k` for the k-th target.
pub open spec fn assignments(ts: Seq<Seq<char>>) -> Seq<Seq<char>> {
    Seq::new(ts.len(), |i: int| seq![' '] + ts[i] + seq![' ', '=', ' '] + placeholder((i + 1) as nat))
}

/// ` col = EXCLUDED.col` for each target.
pub open spec fn upserts(ts: Seq<Seq<char>>) -> Seq<Seq<char>> {
    Seq::new(ts.len(), |i: int| seq![' '] + ts[i] + " = EXCLUDED."@ + ts[i])
}

proof fn lemma_join_push(parts: Seq<Seq<char>>, x: Seq<char>, sep: Seq<char>)
    ensures
        join(parts.push(x), sep) == if parts.len() == 0 { x } else { join(parts, sep) + sep + x },
{
    assert(parts.push(x).drop_last() =~= parts);
}

proof fn lemma_targets_step(cols: Seq<ColumnMapper>, i: int, all_columns: bool, skip: Option<Seq<char>>)
    requires
        0 <= i < cols.len(),
    ensures
        targets(cols.take(i + 1), all_columns, skip) == if included(cols[i], all_columns) && !(skip is Some
            && skip->0 == cols[i].name@) {
            targets(cols.take(i), all_columns, skip).push(cols[i].column@)
        } else {
            targets(cols.take(i), all_columns, skip)
        },
{
    assert(cols.take(i + 1).drop_last() =~= cols.take(i));
}

pub open spec fn opt_view(s: Option<&str>) -> Option<Seq<char>> {
    match s {
        Some(t) => Some(t@),
        None => None,
    }
}

proof fn lemma_targets_len(cols: Seq<ColumnMapper>, all_columns: bool, skip: Option<Seq<char>>)
    ensures
        targets(cols, all_columns, skip).len() <= cols.len(),
    decreases cols.len(),
{
    if cols.len() > 0 {
        lemma_targets_len(cols.drop_last(), all_columns, skip);
    }
}

proof fn lemma_lookup_step(cols: Seq<ColumnMapper>, i: int, lookup: Seq<char>)
    requires
        0 <= i < cols.len(),
    ensures
        lookup_column(cols.take(i + 1), lookup) == if cols[i].name@ == lookup {
            cols[i].column@
        } else {
            lookup_column(cols.take(i), lookup)
        },
{
    assert(cols.take(i + 1).drop_last() =~= cols.take(i));
}

proof fn lemma_placeholders_push(n: nat)
    ensures
        placeholders(n + 1) == placeholders(n).push(placeholder(n + 1)),
{
    assert(placeholders(n + 1) =~= placeholders(n).push(placeholder(n + 1)));
}

proof fn lemma_assignments_push(ts: Seq<Seq<char>>, x: Seq<char>)
    ensures
        assignments(ts.push(x)) == assignments(ts).push(
            seq![' '] + x + seq![' ', '=', ' '] + placeholder(ts.len() + 1),
        ),
{
    assert(assignments(ts.push(x)) =~= assignments(ts).push(
        seq![' '] + x + seq![' ', '=', ' '] + placeholder(ts.len() + 1),
    ));
}

proof fn lemma_upserts_push(ts: Seq<Seq<char>>, x: Seq<char>)
    ensures
        upserts(ts.push(x)) == upserts(ts).push(seq![' '] + x + " = EXCLUDED."@ + x),
{
    assert(upserts(ts.push(x)) =~= upserts(ts).push(seq![' '] + x + " = EXCLUDED."@ + x));
}

fn digit_str(d: usize) -> (r: &'static str)
    requires
        d < 10,
    ensures
        r@ == seq![digit_char(d as nat)],
{
    proof {
        reveal_strlit("0");
        reveal_strlit("1");
        reveal_strlit("2");
        reveal_strlit("3");
        reveal_strlit("4");
        reveal_strlit("5");
        reveal_strlit("6");
        reveal_strlit("7");
        reveal_strlit("8");
        reveal_strlit("9");
    }
    if d == 0 { "0" } else if d == 1 { "1" } else if d == 2 { "2" } else if d == 3 { "3" }
    else if d == 4 { "4" } else if d == 5 { "5" } else if d == 6 { "6" } else if d == 7 { "7" }
    else if d == 8 { "8" } else { "9" }
}

/// Appends the decimal notation of `n`.
pub fn append_decimal(s: &mut String, n: usize)
    ensures
        final(s)@ == old(s)@ + decimal(n as nat),
    decreases n,
{
    if n >= 10 {
        append_decimal(s, n / 10);
    }
    s.append(digit_str(n % 10));
    proof {
        if n >= 10 {
            assert(old(s)@ + decimal((n / 10) as nat) + seq![digit_char((n % 10) as nat)]
                =~= old(s)@ + decimal(n as nat));
        } else {
            assert(decimal(n as nat) == seq![digit_char(n as nat)]);
        }
    }
}

/// The text of `a` followed by that of `b`.
pub fn concat(a: &str, b: &str) -> (r: String)
    ensures
        r@ == a@ + b@,
{
    let mut s = String::from_str(a);
    s.append(b);
    s
}

/// Appends the numbered parameter `$n`.
fn append_placeholder(s: &mut String, n: usize)
    ensures
        final(s)@ == old(s)@ + placeholder(n as nat),
{
    s.append("$");
    append_decimal(s, n);
    proof {
        reveal_strlit("$");
        assert(old(s)@ + seq!['$'] + decimal(n as nat) =~= old(s)@ + placeholder(n as nat));
    }
}

/// When every column takes part, the targets are all the column texts.
pub proof fn lemma_targets_of_plain(cols: Seq<ColumnMapper>, all_columns: bool)
    requires
        forall|i: int| 0 <= i < cols.len() ==> included(#[trigger] cols[i], all_columns),
    ensures
        targets(cols, all_columns, None) == cols.map_values(|c: ColumnMapper| c.column@),
    decreases cols.len(),
{
    if cols.len() > 0 {
        lemma_targets_of_plain(cols.drop_last(), all_columns);
        assert(cols.map_values(|c: ColumnMapper| c.column@) =~= cols.drop_last().map_values(
            |c: ColumnMapper| c.column@,
        ).push(cols.last().column@));
    }
}

/// The columns of one table and how statements on it are written.
#[derive(Debug, Default, Clone)]
pub struct ColumnMappers {
    pub table_name: &'static str,
    pub columns: Vec<ColumnMapper>,
}

impl ColumnMappers {
    pub open spec fn chosen(&self, all_columns: bool) -> Seq<Seq<char>> {
        targets(self.columns@, all_columns, None)
    }

    /// The column texts that take part, separated by `", "`.
    pub fn get_columns(&self, all_columns: bool) -> (r: String)
        ensures
            r@ == join(self.chosen(all_columns), ", "@),
    {
        let mut buf = String::new();
        let mut n: usize = 0;
        let mut i: usize = 0;
        while i < self.columns.len()
            invariant
                0 <= i <= self.columns@.len(),
                n == targets(self.columns@.take(i as int), all_columns, None).len(),
                n <= i,
                buf@ == join(targets(self.columns@.take(i as int), all_columns, None), ", "@),
            decreases self.columns@.len() - i,
        {
            let col = &self.columns[i];
            proof {
                lemma_targets_step(self.columns@, i as int, all_columns, None);
                lemma_join_push(targets(self.columns@.take(i as int), all_columns, None), col.column@, ", "@);
            }
            if all_columns || col.note != ColumnNote::Extra {
                if n > 0 {
                    buf.append(", ");
                }
                buf.append(col.column.as_str());
                n += 1;
            }
            i += 1;
        }
        proof {
            assert(self.columns@.take(self.columns@.len() as int) =~= self.columns@);
        }
        buf
    }

    /// `SELECT <columns> FROM <table>`.
    pub fn build_select_query(&self, all_columns: bool) -> (r: String)
        ensures
            r@ == "SELECT "@ + join(self.chosen(all_columns), ", "@) + " FROM "@ + self.table_name@,
    {
        let mut buf = String::from_str("SELECT ");
        let cols = self.get_columns(all_columns);
        buf.append(cols.as_str());
        buf.append(" FROM ");
        buf.append(self.table_name);
        buf
    }

    /// `INSERT INTO <table>(<columns>) VALUES(<$1, ..., $n>`, and `n`.
    fn insert_head(&self, all_columns: bool) -> (r: (String, usize))
        ensures
            r.1 == self.chosen(all_columns).len(),
            r.0@ == "INSERT INTO "@ + self.table_name@ + "("@ + join(self.chosen(all_columns), ","@)
                + ") VALUES("@ + join(placeholders(r.1 as nat), ", "@),
    {
        let mut buf = String::from_str("INSERT INTO ");
        buf.append(self.table_name);
        buf.append("(");
        let ghost head = buf@;
        let mut values = String::new();
        let mut n: usize = 0;
        let mut i: usize = 0;
        while i < self.columns.len()
            invariant
                0 <= i <= self.columns@.len(),
                n == targets(self.columns@.take(i as int), all_columns, None).len(),
                n <= i,
                buf@ == head + join(targets(self.columns@.take(i as int), all_columns, None), ","@),
                values@ == join(placeholders(n as nat), ", "@),
            decreases self.columns@.len() - i,
        {
            let col = &self.columns[i];
            proof {
                lemma_targets_step(self.columns@, i as int, all_columns, None);
                lemma_join_push(targets(self.columns@.take(i as int), all_columns, None), col.column@, ","@);
                lemma_placeholders_push(n as nat);
                lemma_join_push(placeholders(n as nat), placeholder((n + 1) as nat), ", "@);
            }
            if all_columns || col.note != ColumnNote::Extra {
                if n > 0 {
                    buf.append(",");
                    values.append(", ");
                }
                buf.append(col.column.as_str());
                append_placeholder(&mut values, n + 1);
                n += 1;
            }
            i += 1;
        }
        proof {
            assert(self.columns@.take(self.columns@.len() as int) =~= self.columns@);
        }
        buf.append(") VALUES(");
        buf.append(values.as_str());
        (buf, n)
    }

    /// `INSERT INTO <table>(<columns>) VALUES(<$1, ..., $n>)`.
    pub fn build_insert_query(&self, all_columns: bool) -> (r: String)
        ensures
            r@ == "INSERT INTO "@ + self.table_name@ + "("@ + join(self.chosen(all_columns), ","@)
                + ") VALUES("@ + join(placeholders(self.chosen(all_columns).len()), ", "@) + ")"@,
    {
        let (mut buf, _n) = self.insert_head(all_columns);
        buf.append(")");
        buf
    }

    /// An insert that, on a conflict over `on_conflict`, overwrites every
    /// column that takes part with the value offered.
    pub fn build_upsert(&self, on_conflict: &str, all_columns: bool) -> (r: String)
        ensures
            r@ == "INSERT INTO "@ + self.table_name@ + "("@ + join(self.chosen(all_columns), ","@)
                + ") VALUES("@ + join(placeholders(self.chosen(all_columns).len()), ", "@)
                + ")\n      ON CONFLICT "@ + on_conflict@ + "\n    DO UPDATE SET "@
                + join(upserts(self.chosen(all_columns)), ","@),
    {
        let (mut buf, _n) = self.insert_head(all_columns);
        buf.append(")\n      ON CONFLICT ");
        buf.append(on_conflict);
        buf.append("\n    DO UPDATE SET ");
        let ghost head = buf@;
        let mut n: usize = 0;
        let mut i: usize = 0;
        while i < self.columns.len()
            invariant
                0 <= i <= self.columns@.len(),
                n == targets(self.columns@.take(i as int), all_columns, None).len(),
                n <= i,
                buf@ == head + join(upserts(targets(self.columns@.take(i as int), all_columns, None)), ","@),
            decreases self.columns@.len() - i,
        {
            let col = &self.columns[i];
            let ghost ts = targets(self.columns@.take(i as int), all_columns, None);
            proof {
                lemma_targets_step(self.columns@, i as int, all_columns, None);
                lemma_upserts_push(ts, col.column@);
                lemma_join_push(upserts(ts), seq![' '] + col.column@ + " = EXCLUDED."@ + col.column@, ","@);
            }
            if all_columns || col.note != ColumnNote::Extra {
                if n > 0 {
                    buf.append(",");
                }
                let ghost before = buf@;
                buf.append(" ");
                buf.append(col.column.as_str());
                buf.append(" = EXCLUDED.");
                buf.append(col.column.as_str());
                proof {
                    reveal_strlit(" ");
                    assert(buf@ =~= before + (seq![' '] + col.column@ + " = EXCLUDED."@ + col.column@));
                }
                n += 1;
            }
            i += 1;
        }
        proof {
            assert(self.columns@.take(self.columns@.len() as int) =~= self.columns@);
        }
        buf
    }

    /// ` c1 = $1, c2 = $2, ...` (separated by `,`) over the columns that take
    /// part and are not named `skip`, and how many there are.
    fn assignment_list(&self, all_columns: bool, skip: Option<&str>) -> (r: (String, usize))
        ensures
            r.1 == targets(self.columns@, all_columns, opt_view(skip)).len(),
            r.0@ == join(assignments(targets(self.columns@, all_columns, opt_view(skip))), ","@),
    {
        let skip_name = match skip {
            Some(name) => Some(String::from_str(name)),
            None => None,
        };
        let mut buf = String::new();
        let mut n: usize = 0;
        let mut i: usize = 0;
        while i < self.columns.len()
            invariant
                0 <= i <= self.columns@.len(),
                skip_name is Some <==> skip is Some,
                skip is Some ==> skip_name->0@ == skip->0@,
                n == targets(self.columns@.take(i as int), all_columns, opt_view(skip)).len(),
                n <= i,
                buf@ == join(assignments(targets(self.columns@.take(i as int), all_columns, opt_view(skip))), ","@),
            decreases self.columns@.len() - i,
        {
            let col = &self.columns[i];
            let ghost ts = targets(self.columns@.take(i as int), all_columns, opt_view(skip));
            let ghost item = seq![' '] + col.column@ + seq![' ', '=', ' '] + placeholder((n + 1) as nat);
            proof {
                lemma_targets_step(self.columns@, i as int, all_columns, opt_view(skip));
                lemma_assignments_push(ts, col.column@);
                lemma_join_push(assignments(ts), item, ","@);
            }
            let skipped = match &skip_name {
                Some(name) => col.name == *name,
                None => false,
            };
            if !skipped && (all_columns || col.note != ColumnNote::Extra) {
                if n > 0 {
                    buf.append(",");
                }
                let ghost before = buf@;
                buf.append(" ");
                buf.append(col.column.as_str());
                buf.append(" = ");
                append_placeholder(&mut buf, n + 1);
                proof {
                    reveal_strlit(" ");
                    reveal_strlit(" = ");
                    assert(buf@ =~= before + item);
                }
                n += 1;
            }
            i += 1;
        }
        proof {
            assert(self.columns@.take(self.columns@.len() as int) =~= self.columns@);
        }
        (buf, n)
    }

    /// The column text used to look `lookup` up.
    fn find_lookup_column(&self, lookup: &str) -> (r: String)
        ensures
            r@ == lookup_column(self.columns@, lookup@),
    {
        let target = String::from_str(lookup);
        let mut found = String::from_str(lookup);
        let mut i: usize = 0;
        while i < self.columns.len()
            invariant
                0 <= i <= self.columns@.len(),
                target@ == lookup@,
                found@ == lookup_column(self.columns@.take(i as int), lookup@),
            decreases self.columns@.len() - i,
        {
            proof {
                lemma_lookup_step(self.columns@, i as int, lookup@);
            }
            if self.columns[i].name == target {
                found = self.columns[i].column.clone();
            }
            i += 1;
        }
        proof {
            assert(self.columns@.take(self.columns@.len() as int) =~= self.columns@);
        }
        found
    }

    /// `UPDATE <table> SET c1 = $1, ... WHERE <lookup column> = $n+1`: every
    /// column that takes part is set, but the one looked up.
    pub fn build_update_where(&self, lookup: &str, all_columns: bool) -> (r: String)
        requires
            self.columns@.len() < usize::MAX,
        ensures
            r@ == "UPDATE "@ + self.table_name@ + " SET "@
                + join(assignments(targets(self.columns@, all_columns, Some(lookup@))), ","@)
                + " WHERE "@ + lookup_column(self.columns@, lookup@) + seq![' ', '=', ' ']
                + placeholder(targets(self.columns@, all_columns, Some(lookup@)).len() + 1),
    {
        let (set, n) = self.assignment_list(all_columns, Some(lookup));
        let lookup_col = self.find_lookup_column(lookup);
        proof {
            lemma_targets_len(self.columns@, all_columns, Some(lookup@));
        }
        let mut buf = String::from_str("UPDATE ");
        buf.append(self.table_name);
        buf.append(" SET ");
        buf.append(set.as_str());
        buf.append(" WHERE ");
        buf.append(lookup_col.as_str());
        buf.append(" = ");
        append_placeholder(&mut buf, n + 1);
        proof {
            reveal_strlit(" = ");
        }
        buf
    }

    /// How many columns are set, and ` c1 = $1, c2 = $2, ...` over them.
    pub fn get_update_set_columns(&self, all_columns: bool) -> (r: (u32, String))
        requires
            self.columns@.len() <= u32::MAX,
        ensures
            r.0 == self.chosen(all_columns).len(),
            r.1@ == join(assignments(self.chosen(all_columns)), ","@),
    {
        let (set, n) = self.assignment_list(all_columns, None);
        proof {
            lemma_targets_len(self.columns@, all_columns, None);
        }
        (n as u32, set)
    }

    /// The positions of the columns noted `Extra`, in increasing order: the
    /// ones read back from a row into a map of field values.
    pub fn extra_columns(&self) -> (r: Vec<usize>)
        ensures
            forall|k: int| 0 <= k < r@.len() ==> r@[k] < self.columns@.len() && self.columns@[r@[k] as int].note
                == ColumnNote::Extra,
            forall|i: int|
                0 <= i < self.columns@.len() && self.columns@[i].note == ColumnNote::Extra ==> r@.contains(
                    i as usize,
                ),
            forall|a: int, b: int| 0 <= a < b < r@.len() ==> r@[a] < r@[b],
    {
        let mut out: Vec<usize> = Vec::new();
        let mut i: usize = 0;
        while i < self.columns.len()
            invariant
                0 <= i <= self.columns@.len(),
                forall|k: int| 0 <= k < out@.len() ==> out@[k] < i && self.columns@[out@[k] as int].note
                    == ColumnNote::Extra,
                forall|j: int| 0 <= j < i && self.columns@[j].note == ColumnNote::Extra ==> out@.contains(j as usize),
                forall|a: int, b: int| 0 <= a < b < out@.len() ==> out@[a] < out@[b],
            decreases self.columns@.len() - i,
        {
            if self.columns[i].note == ColumnNote::Extra {
                let ghost before = out@;
                out.push(i);
                proof {
                    assert forall|j: int| 0 <= j <= i && self.columns@[j].note == ColumnNote::Extra implies out@.contains(
                        j as usize,
                    ) by {
                        if j < i {
                            let k = choose|k: int| 0 <= k < before.len() && before[k] == j as usize;
                            assert(out@[k] == j as usize);
                        } else {
                            assert(out@[before.len() as int] == i);
                        }
                    }
                }
            }
            i += 1;
        }
        out
    }
}

} // verus!
