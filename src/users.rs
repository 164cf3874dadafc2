use vstd::prelude::*;
use vstd::arithmetic::div_mod::lemma_fundamental_div_mod_converse;

verus! {

/// Size of one login record.
pub const RECORD_SIZE: usize = 384;

/// Offset, within a record, of the field whose bytes tell a live session.
pub const FIELD_OFFSET: usize = 44;

/// Width of that field.
pub const FIELD_WIDTH: usize = 30;

/// Whether some byte of record `i`'s field, as far as the data reaches, is
/// non-zero.
pub open spec fn field_set(data: Seq<u8>, i: int) -> bool {
    exists|j: int|
        384 * i + 44 <= j < 384 * i + 74 && 0 <= j < data.len() && #[trigger] data[j] != 0
}

/// How many of records `2 .. n` have their field set.
pub open spec fn set_below(data: Seq<u8>, n: int) -> nat
    decreases n,
{
    if n <= 2 {
        0
    } else {
        set_below(data, n - 1) + if field_set(data, n - 1) { 1nat } else { 0nat }
    }
}

/// The number of live sessions in the accounting data: of its
/// `len / 384` whole records, those from the third on whose field is set.
pub open spec fn session_count(data: Seq<u8>) -> nat {
    set_below(data, (data.len() / 384) as int)
}

/// Whether a byte of `data[start..end]` is non-zero.
fn any_nonzero(data: &[u8], start: usize, end: usize) -> (r: bool)
    requires
        start <= end <= data@.len(),
    ensures
        r == exists|j: int| start <= j < end && #[trigger] data@[j] != 0,
{
    let mut j: usize = start;
    while j < end
        invariant
            start <= j <= end <= data@.len(),
            forall|k: int| start <= k < j ==> #[trigger] data@[k] == 0,
        decreases end - j,
    {
        if data[j] != 0 {
            return true;
        }
        j = j + 1;
    }
    false
}

/// Counts the live sessions in the bytes of the accounting source.
pub fn count_users(data: &[u8]) -> (r: u64)
    ensures
        r == session_count(data@),
{
    let len = data.len();
    let last = len / RECORD_SIZE;
    let mut count: u64 = 0;
    let mut i: usize = 2;
    while i < last
        invariant
            len == data@.len(),
            last == len / 384,
            2 <= i,
            i <= last || i == 2,
            count == set_below(data@, i as int),
            count <= i,
        decreases last - i,
    {
        assert(384 * i + 384 <= len) by (nonlinear_arith)
            requires
                i < last,
                last == len / 384,
        ;
        let base = RECORD_SIZE * i;
        let start = base + FIELD_OFFSET;
        let end = base + FIELD_OFFSET + FIELD_WIDTH;
        let set = any_nonzero(data, start, end);
        assert(set == field_set(data@, i as int));
        if set {
            count = count + 1;
        }
        i = i + 1;
    }
    count
}

/// Whether every record of `data` has only zero bytes in its field.
pub open spec fn fields_clear(data: Seq<u8>) -> bool {
    forall|q: int| 0 <= q < data.len() && 44 <= q % 384 < 74 ==> #[trigger] data[q] == 0
}

proof fn in_field(i: int, j: int)
    requires
        0 <= i,
        384 * i + 44 <= j < 384 * i + 74,
    ensures
        j % 384 == j - 384 * i,
        44 <= j % 384 < 74,
{
    lemma_fundamental_div_mod_converse(j, 384, i, j - 384 * i);
}

proof fn count_clear(data: Seq<u8>, n: int)
    requires
        fields_clear(data),
    ensures
        set_below(data, n) == 0,
    decreases n,
{
    if n > 2 {
        count_clear(data, n - 1);
        if field_set(data, n - 1) {
            let j = choose|j: int|
                384 * (n - 1) + 44 <= j < 384 * (n - 1) + 74 && 0 <= j < data.len()
                    && #[trigger] data[j] != 0;
            in_field(n - 1, j);
        }
    }
}

proof fn count_one(data: Seq<u8>, n: int, r: int, p: int, b: u8)
    requires
        fields_clear(data),
        2 <= r,
        384 * r + 44 <= p < 384 * r + 74,
        0 <= p < data.len(),
        b != 0,
    ensures
        set_below(data.update(p, b), n) == if n > r { 1nat } else { 0nat },
    decreases n,
{
    let d = data.update(p, b);
    if n > 2 {
        count_one(data, n - 1, r, p, b);
        let i = n - 1;
        if i == r {
            assert(d[p] != 0);
        } else if field_set(d, i) {
            let j = choose|j: int|
                384 * i + 44 <= j < 384 * i + 74 && 0 <= j < d.len() && #[trigger] d[j] != 0;
            in_field(i, j);
            assert(j != p);
            assert(data[j] == 0);
        }
    }
}

/// In accounting data of whole records whose fields hold only zero bytes, no
/// session is counted; setting one byte of one counted record's field to a
/// non-zero value raises the count by exactly one.
pub proof fn one_byte_one_session(data: Seq<u8>, k: nat, r: int, p: int, b: u8)
    requires
        data.len() == 384 * (k + 2),
        fields_clear(data),
        2 <= r < k + 2,
        384 * r + 44 <= p < 384 * r + 74,
        b != 0,
    ensures
        session_count(data) == 0,
        session_count(data.update(p, b)) == session_count(data) + 1,
{
    count_clear(data, (data.len() / 384) as int);
    assert(data.len() / 384 == k + 2);
    count_one(data, (data.len() / 384) as int, r, p, b);
}

} // verus!
