use vstd::prelude::*;
use vstd::string::*;
use crate::schema::{DecodeError, FieldV, RowDecodable, spec_decode_row};

verus! {

/// What a consumer of a trace table's record sequence can see in place of
/// a record.
#[derive(Clone, Copy, Debug, PartialEq, Eq, Structural)]
pub enum TraceError {
    /// The expected next shard file could not be opened; fatal, the
    /// traversal ends in a non-recoverable state.
    ShardOpen { shard: usize },
    /// A line of a shard could not be read or split into fields; fatal for
    /// this item, propagated as the item's result.
    RowRead { shard: usize },
    /// The row's fields did not decode as the record kind's schema; scoped
    /// to the offending row, the sequence continues.
    Decode(DecodeError),
}

/// A raw row: the ordered textual field values of one line of one shard.
pub type RawRow = Vec<String>;

/// The rows of one shard, in file order.
pub type ShardRows = Vec<RawRow>;

/// The character of a decimal digit value.
pub open spec fn spec_digit_char(d: nat) -> char
    recommends
        d < 10,
{
    if d == 0 {
        '0'
    } else if d == 1 {
        '1'
    } else if d == 2 {
        '2'
    } else if d == 3 {
        '3'
    } else if d == 4 {
        '4'
    } else if d == 5 {
        '5'
    } else if d == 6 {
        '6'
    } else if d == 7 {
        '7'
    } else if d == 8 {
        '8'
    } else {
        '9'
    }
}

/// The decimal digits of `n`, most significant first.
pub open spec fn spec_decimal(n: nat) -> Seq<char>
    decreases n,
{
    if n < 10 {
        seq![spec_digit_char(n)]
    } else {
        spec_decimal(n / 10).push(spec_digit_char(n % 10))
    }
}

/// `n` in decimal, left-padded with zeros to at least five digits, the way
/// shard numbers are written in file names.
pub open spec fn spec_padded5(n: nat) -> Seq<char> {
    let d = spec_decimal(n);
    if d.len() >= 5 {
        d
    } else {
        Seq::new((5 - d.len()) as nat, |i: int| '0') + d
    }
}

/// The file name of shard `index` of a set of `count` shards under a base
/// directory.
pub open spec fn spec_shard_file_name(base: Seq<char>, index: nat, count: nat) -> Seq<char> {
    base + "/part-"@ + spec_padded5(index) + "-of-"@ + spec_padded5(count) + ".csv"@
}

fn digit_char_str(d: usize) -> (r: &'static str)
    requires
        d < 10,
    ensures
        r@ == seq![spec_digit_char(d as nat)],
{
    if d == 0 {
        proof {
            reveal_strlit("0");
            assert("0"@ =~= seq![spec_digit_char(0)]);
        }
        "0"
    } else if d == 1 {
        proof {
            reveal_strlit("1");
            assert("1"@ =~= seq![spec_digit_char(1)]);
        }
        "1"
    } else if d == 2 {
        proof {
            reveal_strlit("2");
            assert("2"@ =~= seq![spec_digit_char(2)]);
        }
        "2"
    } else if d == 3 {
        proof {
            reveal_strlit("3");
            assert("3"@ =~= seq![spec_digit_char(3)]);
        }
        "3"
    } else if d == 4 {
        proof {
            reveal_strlit("4");
            assert("4"@ =~= seq![spec_digit_char(4)]);
        }
        "4"
    } else if d == 5 {
        proof {
            reveal_strlit("5");
            assert("5"@ =~= seq![spec_digit_char(5)]);
        }
        "5"
    } else if d == 6 {
        proof {
            reveal_strlit("6");
            assert("6"@ =~= seq![spec_digit_char(6)]);
        }
        "6"
    } else if d == 7 {
        proof {
            reveal_strlit("7");
            assert("7"@ =~= seq![spec_digit_char(7)]);
        }
        "7"
    } else if d == 8 {
        proof {
            reveal_strlit("8");
            assert("8"@ =~= seq![spec_digit_char(8)]);
        }
        "8"
    } else {
        proof {
            reveal_strlit("9");
            assert("9"@ =~= seq![spec_digit_char(9)]);
        }
        "9"
    }
}

fn decimal_digits(n: usize) -> (r: String)
    ensures
        r@ == spec_decimal(n as nat),
        r@.len() >= 1,
    decreases n,
{
    if n < 10 {
        digit_char_str(n).to_owned()
    } else {
        let mut s = decimal_digits(n / 10);
        s.append(digit_char_str(n % 10));
        proof {
            assert(spec_decimal((n as nat) / 10).push(spec_digit_char((n as nat) % 10))
                =~= spec_decimal((n as nat) / 10) + seq![spec_digit_char((n as nat) % 10)]);
        }
        s
    }
}

fn padded5(n: usize) -> (r: String)
    ensures
        r@ == spec_padded5(n as nat),
{
    let d = decimal_digits(n);
    let len = d.as_str().unicode_len();
    let mut s = String::new();
    let mut k = len;
    proof {
        assert(s@ =~= Seq::new(0, |i: int| '0'));
    }
    while k < 5
        invariant
            len <= k <= 5 || (k == len && len >= 5),
            s@ =~= Seq::new((k - len) as nat, |i: int| '0'),
        decreases 5 - k,
    {
        s.append("0");
        k += 1;
        proof {
            reveal_strlit("0");
            assert(s@ =~= Seq::new((k - len) as nat, |i: int| '0'));
        }
    }
    s.append(d.as_str());
    proof {
        if len >= 5 {
            assert(s@ =~= spec_padded5(n as nat));
        } else {
            assert(s@ =~= spec_padded5(n as nat));
        }
    }
    s
}

/// Build the file name of one shard: the base directory, then the
/// zero-padded shard index and shard count in the fixed naming pattern.
pub fn shard_file_name(base: &str, index: usize, count: usize) -> (r: String)
    ensures
        r@ == spec_shard_file_name(base@, index as nat, count as nat),
{
    let mut s = base.to_owned();
    s.append("/part-");
    let p = padded5(index);
    s.append(p.as_str());
    s.append("-of-");
    let q = padded5(count);
    s.append(q.as_str());
    s.append(".csv");
    proof {
        assert(s@ =~= spec_shard_file_name(base@, index as nat, count as nat));
    }
    s
}

/// Whether a shard-set traversal is still running.
#[derive(Clone, Copy, Debug, PartialEq, Eq, Structural)]
pub enum CursorStatus {
    /// Rows are being read from the current shard.
    Active,
    /// The last shard was exhausted; the sequence has ended permanently.
    Ended,
    /// A shard could not be opened; the traversal is not recoverable.
    Failed,
}

/// The shard-walking state of a shard-set reader: which shard of how many
/// is current, and whether the traversal is still running.  The cursor
/// holds the iteration rules; the caller owns the row source of the
/// current shard, reports when it is exhausted or could not be opened, and
/// opens the shard the cursor names next.  Shards are visited once each,
/// in ascending index order, and the traversal cannot be restarted.
pub struct ShardCursor {
    shard_count: usize,
    shard: usize,
    status: CursorStatus,
}

impl ShardCursor {
    /// Total number of shards of the set.
    pub closed spec fn spec_count(self) -> usize {
        self.shard_count
    }

    /// Index of the current shard.
    pub closed spec fn spec_shard(self) -> usize {
        self.shard
    }

    /// Whether the traversal is running, ended, or failed.
    pub closed spec fn spec_status(self) -> CursorStatus {
        self.status
    }

    /// The shard index stays within the set while the traversal runs.
    pub open spec fn wf(self) -> bool {
        &&& self.spec_status() is Active ==> self.spec_shard() < self.spec_count()
        &&& self.spec_shard() <= self.spec_count()
    }

    /// Start a traversal of a set of `shard_count` shards at shard 0.
    pub fn new(shard_count: usize) -> (r: ShardCursor)
        requires
            shard_count >= 1,
        ensures
            r.wf(),
            r.spec_count() == shard_count,
            r.spec_shard() == 0,
            r.spec_status() is Active,
    {
        ShardCursor { shard_count, shard: 0, status: CursorStatus::Active }
    }

    pub fn shard_count(&self) -> (r: usize)
        ensures
            r == self.spec_count(),
    {
        self.shard_count
    }

    pub fn current_shard(&self) -> (r: usize)
        ensures
            r == self.spec_shard(),
    {
        self.shard
    }

    pub fn is_active(&self) -> (r: bool)
        ensures
            r == (self.spec_status() is Active),
    {
        match self.status {
            CursorStatus::Active => true,
            _ => false,
        }
    }

    pub fn has_ended(&self) -> (r: bool)
        ensures
            r == (self.spec_status() is Ended),
    {
        match self.status {
            CursorStatus::Ended => true,
            _ => false,
        }
    }

    pub fn has_failed(&self) -> (r: bool)
        ensures
            r == (self.spec_status() is Failed),
    {
        match self.status {
            CursorStatus::Failed => true,
            _ => false,
        }
    }

    /// The file name of the current shard under a base directory.
    pub fn current_file_name(&self, base: &str) -> (r: String)
        requires
            self.spec_status() is Active,
        ensures
            r@ == spec_shard_file_name(base@, self.spec_shard() as nat, self.spec_count() as nat),
    {
        shard_file_name(base, self.shard, self.shard_count)
    }

    /// The current shard is exhausted: move to the next shard, or end the
    /// traversal permanently after the last one.  True exactly when a next
    /// shard exists; the caller must then open it.
    pub fn advance_shard(&mut self) -> (advanced: bool)
        requires
            old(self).wf(),
            old(self).spec_status() is Active,
        ensures
            final(self).wf(),
            final(self).spec_count() == old(self).spec_count(),
            advanced == (old(self).spec_shard() + 1 < old(self).spec_count()),
            advanced ==> final(self).spec_status() is Active && final(self).spec_shard() == old(
                self,
            ).spec_shard() + 1,
            !advanced ==> final(self).spec_status() is Ended && final(self).spec_shard() == old(
                self,
            ).spec_count(),
    {
        if self.shard + 1 < self.shard_count {
            self.shard = self.shard + 1;
            true
        } else {
            self.shard = self.shard_count;
            self.status = CursorStatus::Ended;
            false
        }
    }

    /// The current shard's file could not be opened: the traversal fails
    /// permanently.  Opening is not retried, and no shard — shard 0
    /// included — is ever re-opened.
    pub fn mark_open_failed(&mut self)
        requires
            old(self).wf(),
            old(self).spec_status() is Active,
        ensures
            final(self).wf(),
            final(self).spec_count() == old(self).spec_count(),
            final(self).spec_shard() == old(self).spec_shard(),
            final(self).spec_status() is Failed,
    {
        self.status = CursorStatus::Failed;
    }
}

/// Sum of the lengths of a sequence of sequences.
pub open spec fn spec_sum_lens<T>(shards: Seq<Seq<T>>) -> nat
    decreases shards.len(),
{
    if shards.len() == 0 {
        0
    } else {
        shards.first().len() + spec_sum_lens(shards.drop_first())
    }
}

/// The stream of a shard set holds exactly as many rows as its shards
/// together: one per (shard index, row index) pair.
pub proof fn lemma_flatten_len<T>(shards: Seq<Seq<T>>)
    ensures
        shards.flatten().len() == spec_sum_lens(shards),
    decreases shards.len(),
{
    if shards.len() > 0 {
        lemma_flatten_len(shards.drop_first());
    }
}

/// Number of rows of the shards before shard `i`: the position of shard
/// `i`'s first row in the stream.
pub open spec fn spec_row_offset<T>(shards: Seq<Seq<T>>, i: int) -> nat {
    spec_sum_lens(shards.take(i))
}

/// Rows stand in the stream in ascending (shard index, row index) order:
/// row `j` of shard `i` is stream item `spec_row_offset(shards, i) + j`.
pub proof fn lemma_flatten_index<T>(shards: Seq<Seq<T>>, i: int, j: int)
    requires
        0 <= i < shards.len(),
        0 <= j < shards[i].len(),
    ensures
        spec_row_offset(shards, i) + j < shards.flatten().len(),
        shards.flatten()[spec_row_offset(shards, i) + j] == shards[i][j],
    decreases i,
{
    lemma_flatten_len(shards);
    if i == 0 {
        assert(shards.take(0) =~= Seq::<Seq<T>>::empty());
        lemma_flatten_len(shards.drop_first());
    } else {
        lemma_flatten_index(shards.drop_first(), i - 1, j);
        assert(shards.take(i).drop_first() =~= shards.drop_first().take(i - 1));
        assert(shards.take(i).first() == shards[0]);
    }
}

/// A pull-based reader presenting the rows of a whole shard set, held in
/// memory, as one continuous sequence: all rows of shard 0 in file order,
/// then all rows of shard 1, and so on.  It advances across shard
/// boundaries by the same cursor rules that a file-backed reader follows.
pub struct RowStream {
    shards: Vec<ShardRows>,
    cursor: ShardCursor,
    row: usize,
}

impl RowStream {
    /// The rows the stream has not yet yielded, in the order it will yield
    /// them.
    pub closed spec fn remaining(self) -> Seq<Seq<Seq<char>>> {
        if self.cursor.spec_status() is Active {
            self.shards.deep_view()[self.cursor.spec_shard() as int].skip(self.row as int)
                + self.shards.deep_view().skip(self.cursor.spec_shard() + 1).flatten()
        } else {
            Seq::empty()
        }
    }

    pub closed spec fn wf(self) -> bool {
        &&& self.cursor.wf()
        &&& self.cursor.spec_count() == self.shards@.len()
        &&& self.cursor.spec_status() is Active ==> self.row <= self.shards.deep_view()[
            self.cursor.spec_shard() as int
        ].len()
        &&& !(self.cursor.spec_status() is Failed)
    }

    /// Take ownership of the shards of a set and stream all their rows.
    pub fn new(shards: Vec<ShardRows>) -> (r: RowStream)
        requires
            shards@.len() >= 1,
        ensures
            r.wf(),
            r.remaining() == shards.deep_view().flatten(),
    {
        let count = shards.len();
        let r = RowStream { shards, cursor: ShardCursor::new(count), row: 0 };
        proof {
            let dv = r.shards.deep_view();
            assert(dv[0].skip(0) =~= dv[0]);
            assert(dv.skip(1) =~= dv.drop_first());
            assert(r.remaining() =~= dv.flatten());
        }
        r
    }

    /// Pull the next row.  Rows come in ascending (shard index, row index)
    /// order; after the last row of the last shard every call yields
    /// `None`: the sequence has ended permanently and no shard is
    /// revisited.
    pub fn next(&mut self) -> (r: Option<RawRow>)
        requires
            old(self).wf(),
        ensures
            final(self).wf(),
            match r {
                Some(row) => old(self).remaining().len() > 0 && row.deep_view() == old(
                    self,
                ).remaining()[0] && final(self).remaining() == old(self).remaining().drop_first(),
                None => old(self).remaining().len() == 0 && final(self).remaining().len() == 0,
            },
    {
        loop
            invariant
                self.wf(),
                self.remaining() == old(self).remaining(),
            decreases self.shards@.len() - self.cursor.spec_shard(),
        {
            if !self.cursor.is_active() {
                return None;
            }
            let shard_idx = self.cursor.current_shard();
            let ghost dv = self.shards.deep_view();
            let ghost cur = dv[shard_idx as int];
            let ghost rest = dv.skip(shard_idx + 1).flatten();
            if self.row < self.shards[shard_idx].len() {
                let row = self.shards[shard_idx][self.row].clone();
                proof {
                    assert(cur.skip(self.row as int)[0] == cur[self.row as int]);
                    assert(row@ =~= self.shards@[shard_idx as int]@[self.row as int]@);
                    assert(row.deep_view() =~= cur[self.row as int]);
                    assert(cur.skip(self.row as int + 1) =~= cur.skip(
                        self.row as int,
                    ).drop_first());
                    assert((cur.skip(self.row as int) + rest).drop_first() =~= cur.skip(
                        self.row as int + 1,
                    ) + rest);
                }
                self.row = self.row + 1;
                return Some(row);
            } else {
                let ghost s = self.cursor.spec_shard() as int;
                proof {
                    assert(cur.skip(self.row as int) =~= Seq::<Seq<Seq<char>>>::empty());
                    assert(self.remaining() =~= rest);
                }
                let advanced = self.cursor.advance_shard();
                self.row = 0;
                proof {
                    if advanced {
                        assert(dv.skip(s + 1).len() > 0);
                        assert(dv.skip(s + 1).first() == dv[s + 1]);
                        assert(dv.skip(s + 1).drop_first() =~= dv.skip(s + 2));
                        assert(dv[s + 1].skip(0) =~= dv[s + 1]);
                        assert(self.remaining() =~= rest);
                    } else {
                        assert(dv.skip(s + 1) =~= Seq::<Seq<Seq<Seq<char>>>>::empty());
                        assert(rest =~= Seq::<Seq<Seq<char>>>::empty());
                    }
                }
            }
        }
    }
}

/// Pull the next row of a stream and decode it as one record kind: one
/// item of the lazy, finite sequence of typed records of a trace table
/// held in memory.  A decode failure consumes its row and leaves the
/// sequence usable for the next one.
pub fn next_record<T: RowDecodable>(rows: &mut RowStream) -> (r: Option<Result<T, DecodeError>>)
    requires
        old(rows).wf(),
    ensures
        final(rows).wf(),
        match r {
            Some(item) => old(rows).remaining().len() > 0 && final(rows).remaining() == old(
                rows,
            ).remaining().drop_first() && (match item {
                Ok(rec) => spec_decode_row(T::spec_schema(), old(rows).remaining()[0]) matches Ok(
                    fs,
                ) && T::fields_match(rec.deep_view(), fs),
                Err(e) => spec_decode_row(T::spec_schema(), old(rows).remaining()[0]) == Err::<
                    Seq<FieldV>,
                    DecodeError,
                >(e),
            }),
            None => old(rows).remaining().len() == 0 && final(rows).remaining().len() == 0,
        },
{
    match rows.next() {
        Some(row) => Some(T::decode(&row)),
        None => None,
    }
}

} // verus!
