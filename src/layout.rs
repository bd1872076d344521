use vstd::prelude::*;

verus! {

/// Size and alignment in bytes of a field's type.
#[derive(Clone, Copy, Debug, PartialEq, Eq, Structural)]
pub struct FieldLayout {
    pub size: u64,
    pub align: u64,
}

/// `x` rounded up to the next multiple of `a`.
pub open spec fn align_up(x: int, a: int) -> int {
    if x % a == 0 {
        x
    } else {
        x + (a - x % a)
    }
}

/// Where the first `n` fields end when laid out one after another, each at
/// the first offset that is a multiple of its alignment.
pub open spec fn end_after(ls: Seq<FieldLayout>, n: int) -> int
    decreases n,
{
    if n <= 0 {
        0
    } else {
        align_up(end_after(ls, n - 1), ls[n - 1].align as int) + ls[n - 1].size
    }
}

/// The byte offset of field `i`.
pub open spec fn offset_at(ls: Seq<FieldLayout>, i: int) -> int {
    align_up(end_after(ls, i), ls[i].align as int)
}

/// The largest alignment among the first `n` fields, and at least 1.
pub open spec fn max_align(ls: Seq<FieldLayout>, n: int) -> int
    decreases n,
{
    if n <= 0 {
        1
    } else if max_align(ls, n - 1) >= ls[n - 1].align {
        max_align(ls, n - 1)
    } else {
        ls[n - 1].align as int
    }
}

/// The size of one record: the end of its last field, rounded up to the
/// record's alignment. This is the stride between consecutive records.
pub open spec fn record_size(ls: Seq<FieldLayout>) -> int {
    align_up(end_after(ls, ls.len() as int), max_align(ls, ls.len() as int))
}

/// Every alignment is positive, and a record fits in the address space.
pub open spec fn layout_valid(ls: Seq<FieldLayout>) -> bool {
    &&& forall|i: int| 0 <= i < ls.len() ==> (#[trigger] ls[i]).align > 0
    &&& record_size(ls) <= u64::MAX
}

/// Bounds on rounding up: the result is a multiple of `a`, not below `x`,
/// and less than `a` above it.
pub proof fn lemma_align_up(x: int, a: int)
    requires
        x >= 0,
        a > 0,
    ensures
        x <= align_up(x, a) < x + a,
        align_up(x, a) % a == 0,
{
    vstd::arithmetic::div_mod::lemma_fundamental_div_mod(x, a);
    vstd::arithmetic::div_mod::lemma_mod_bound(x, a);
    if x % a != 0 {
        assert(align_up(x, a) == a * (x / a) + a);
        assert(align_up(x, a) == a * (x / a + 1)) by (nonlinear_arith)
            requires
                align_up(x, a) == a * (x / a) + a,
        ;
        vstd::arithmetic::div_mod::lemma_mod_multiples_basic(x / a + 1, a);
        assert((x / a + 1) * a == a * (x / a + 1)) by (nonlinear_arith);
    }
}

/// The fields end no earlier as more of them are laid out.
pub proof fn lemma_end_monotone(ls: Seq<FieldLayout>, i: int, j: int)
    requires
        forall|k: int| 0 <= k < ls.len() ==> (#[trigger] ls[k]).align > 0,
        0 <= i <= j <= ls.len(),
    ensures
        0 <= end_after(ls, i) <= end_after(ls, j),
    decreases j - i,
{
    lemma_end_nonneg(ls, i);
    if i < j {
        lemma_end_monotone(ls, i, j - 1);
        lemma_align_up(end_after(ls, j - 1), ls[j - 1].align as int);
    }
}

/// The record size covers the end of every prefix of the fields.
pub proof fn lemma_end_within_record(ls: Seq<FieldLayout>, j: int)
    requires
        forall|k: int| 0 <= k < ls.len() ==> (#[trigger] ls[k]).align > 0,
        0 <= j <= ls.len(),
    ensures
        0 <= end_after(ls, j) <= record_size(ls),
{
    lemma_end_monotone(ls, j, ls.len() as int);
    lemma_max_align_pos(ls, ls.len() as int);
    lemma_align_up(end_after(ls, ls.len() as int), max_align(ls, ls.len() as int));
}

/// Rounds `x` up to a multiple of `a`, or gives `None` where that leaves `u64`.
fn checked_align_up(x: u64, a: u64) -> (r: Option<u64>)
    requires
        a > 0,
    ensures
        r == (if align_up(x as int, a as int) <= u64::MAX {
            Some(align_up(x as int, a as int) as u64)
        } else {
            None::<u64>
        }),
{
    let rem = x % a;
    if rem == 0 {
        Some(x)
    } else if a - rem > u64::MAX - x {
        None
    } else {
        Some(x + (a - rem))
    }
}

/// Lays the fields out in declaration order, each at the first offset after
/// the previous field that is a multiple of its alignment. Gives the offset
/// of every field and the record's stride, or `None` where an alignment is
/// zero or the record would not fit in `u64`.
pub fn try_layout(ls: &Vec<FieldLayout>) -> (r: Option<(Vec<u64>, u64)>)
    ensures
        r is None <==> !layout_valid(ls@),
        r matches Some((offsets, stride)) ==> {
            &&& offsets@.len() == ls@.len()
            &&& forall|i: int| 0 <= i < ls@.len() ==> offsets@[i] == offset_at(ls@, i)
            &&& stride == record_size(ls@)
        },
{
    let n = ls.len();
    let mut i: usize = 0;
    while i < n
        invariant
            n == ls@.len(),
            i <= n,
            forall|k: int| 0 <= k < i ==> (#[trigger] ls@[k]).align > 0,
        decreases n - i,
    {
        if ls[i].align == 0 {
            assert(ls@[i as int].align == 0);
            return None;
        }
        i = i + 1;
    }
    let mut offsets: Vec<u64> = Vec::new();
    let mut end: u64 = 0;
    let mut widest: u64 = 1;
    i = 0;
    while i < n
        invariant
            n == ls@.len(),
            i <= n,
            forall|k: int| 0 <= k < n ==> (#[trigger] ls@[k]).align > 0,
            end == end_after(ls@, i as int),
            widest == max_align(ls@, i as int),
            offsets@.len() == i,
            forall|k: int| 0 <= k < i ==> offsets@[k] == offset_at(ls@, k),
        decreases n - i,
    {
        let f = ls[i];
        proof {
            lemma_end_within_record(ls@, i + 1);
            lemma_end_monotone(ls@, i as int, i + 1);
            lemma_align_up(end as int, f.align as int);
        }
        let at = match checked_align_up(end, f.align) {
            None => return None,
            Some(at) => at,
        };
        if f.size > u64::MAX - at {
            return None;
        }
        offsets.push(at);
        end = at + f.size;
        if f.align > widest {
            widest = f.align;
        }
        i = i + 1;
    }
    proof {
        lemma_max_align_pos(ls@, n as int);
    }
    match checked_align_up(end, widest) {
        None => None,
        Some(stride) => Some((offsets, stride)),
    }
}

/// The layout is sequential and naturally aligned: each field starts at a
/// multiple of its alignment, after the end of the field before it and with
/// less than one alignment unit of padding, and ends within the record, whose
/// size is a multiple of the largest alignment.
pub proof fn lemma_layout_sequential(ls: Seq<FieldLayout>)
    requires
        layout_valid(ls),
    ensures
        forall|i: int|
            0 <= i < ls.len() ==> {
                &&& #[trigger] offset_at(ls, i) % (ls[i].align as int) == 0
                &&& end_after(ls, i) <= offset_at(ls, i) < end_after(ls, i) + ls[i].align
                &&& offset_at(ls, i) + ls[i].size <= record_size(ls)
            },
        forall|i: int| 0 < i < ls.len() ==> offset_at(ls, i - 1) + ls[i - 1].size <= #[trigger] offset_at(ls, i),
        record_size(ls) % max_align(ls, ls.len() as int) == 0,
{
    assert forall|i: int| 0 <= i < ls.len() implies {
        &&& #[trigger] offset_at(ls, i) % (ls[i].align as int) == 0
        &&& end_after(ls, i) <= offset_at(ls, i) < end_after(ls, i) + ls[i].align
        &&& offset_at(ls, i) + ls[i].size <= record_size(ls)
    } by {
        lemma_layout_at(ls, i);
    }
    assert forall|i: int| 0 < i < ls.len() implies offset_at(ls, i - 1) + ls[i - 1].size
        <= #[trigger] offset_at(ls, i) by {
        lemma_layout_at(ls, i - 1);
        lemma_layout_at(ls, i);
    }
    lemma_end_nonneg(ls, ls.len() as int);
    lemma_max_align_pos(ls, ls.len() as int);
    lemma_align_up(end_after(ls, ls.len() as int), max_align(ls, ls.len() as int));
}

/// The facts of the sequential layout for one field `i`.
pub proof fn lemma_layout_at(ls: Seq<FieldLayout>, i: int)
    requires
        layout_valid(ls),
        0 <= i < ls.len(),
    ensures
        0 <= offset_at(ls, i),
        offset_at(ls, i) % (ls[i].align as int) == 0,
        end_after(ls, i) <= offset_at(ls, i) < end_after(ls, i) + ls[i].align,
        offset_at(ls, i) + ls[i].size <= record_size(ls) <= u64::MAX,
        end_after(ls, i + 1) == offset_at(ls, i) + ls[i].size,
{
    lemma_end_nonneg(ls, i);
    lemma_align_up(end_after(ls, i), ls[i].align as int);
    lemma_end_within_record(ls, i + 1);
}

/// Where every field has a positive size, offsets strictly increase in
/// declaration order, so no two fields share an offset.
pub proof fn lemma_offsets_distinct(ls: Seq<FieldLayout>)
    requires
        layout_valid(ls),
        forall|k: int| 0 <= k < ls.len() ==> (#[trigger] ls[k]).size > 0,
    ensures
        forall|i: int, j: int| 0 <= i < j < ls.len() ==> offset_at(ls, i) < offset_at(ls, j),
{
    assert forall|i: int, j: int| 0 <= i < j < ls.len() implies offset_at(ls, i) < offset_at(
        ls,
        j,
    ) by {
        lemma_end_nonneg(ls, i);
        lemma_align_up(end_after(ls, i), ls[i].align as int);
        lemma_end_monotone(ls, i + 1, j);
        lemma_align_up(end_after(ls, j), ls[j].align as int);
    }
}

proof fn lemma_end_nonneg(ls: Seq<FieldLayout>, n: int)
    requires
        forall|k: int| 0 <= k < ls.len() ==> (#[trigger] ls[k]).align > 0,
        n <= ls.len(),
    ensures
        end_after(ls, n) >= 0,
    decreases n,
{
    if n > 0 {
        lemma_end_nonneg(ls, n - 1);
        lemma_align_up(end_after(ls, n - 1), ls[n - 1].align as int);
    }
}

proof fn lemma_max_align_pos(ls: Seq<FieldLayout>, n: int)
    requires
        n <= ls.len(),
    ensures
        max_align(ls, n) >= 1,
        max_align(ls, n) <= u64::MAX,
        forall|k: int| 0 <= k < n ==> ls[k].align <= #[trigger] max_align(ls, n),
    decreases n,
{
    if n > 0 {
        lemma_max_align_pos(ls, n - 1);
    }
}

} // verus!
