//! Parameter model and the diff/patch engine.
//!
//! A parameter value is a flat record of addressable fields. `diff` emits one
//! patch for each field that differs, and `apply` overwrites the field that a
//! patch addresses.
use vstd::prelude::*;

verus! {

/// One field of a parameter record. A handle field holds the identifier of a
/// realtime-safe handle, or nothing; its absence is itself a value.
#[derive(Clone, Copy, PartialEq, Eq, Structural, Debug)]
pub enum ParamValue {
    Int(i64),
    Bool(bool),
    Handle(Option<u64>),
}

/// A change to one field: the field's index and its new value.
#[derive(Clone, Copy, PartialEq, Eq, Structural, Debug)]
pub struct Patch {
    pub path: usize,
    pub value: ParamValue,
}

/// A patch addressed a field that the record does not have.
#[derive(Clone, Copy, PartialEq, Eq, Structural, Debug)]
pub enum PatchError {
    UnknownPath(usize),
}

/// A parameter value: a record of fields addressed by index.
pub struct ParamRecord {
    pub fields: Vec<ParamValue>,
}

impl View for ParamRecord {
    type V = Seq<ParamValue>;

    open spec fn view(&self) -> Seq<ParamValue> {
        self.fields@
    }
}

/// The record `m` after the patch `p`; a patch whose path lies outside the
/// record leaves it as it is.
pub open spec fn apply_spec(m: Seq<ParamValue>, p: Patch) -> Seq<ParamValue> {
    if p.path < m.len() {
        m.update(p.path as int, p.value)
    } else {
        m
    }
}

/// The record `m` after the patches `ps`, first to last.
pub open spec fn apply_all_spec(m: Seq<ParamValue>, ps: Seq<Patch>) -> Seq<ParamValue>
    decreases ps.len(),
{
    if ps.len() == 0 {
        m
    } else {
        apply_spec(apply_all_spec(m, ps.drop_last()), ps.last())
    }
}

/// The patches for the fields below `i` in which `a` and `b` differ, in field
/// order, each carrying the field's value in `b`.
pub open spec fn diff_upto(a: Seq<ParamValue>, b: Seq<ParamValue>, i: int) -> Seq<Patch>
    decreases i,
{
    if i <= 0 {
        Seq::empty()
    } else if a[i - 1] != b[i - 1] {
        diff_upto(a, b, i - 1).push(Patch { path: (i - 1) as usize, value: b[i - 1] })
    } else {
        diff_upto(a, b, i - 1)
    }
}

/// The patches that take `a` to `b`: one for each field in which they differ.
pub open spec fn diff_spec(a: Seq<ParamValue>, b: Seq<ParamValue>) -> Seq<Patch> {
    diff_upto(a, b, a.len() as int)
}

impl ParamRecord {
    /// A record with the given fields.
    pub fn new(fields: Vec<ParamValue>) -> (r: ParamRecord)
        ensures
            r@ == fields@,
    {
        ParamRecord { fields }
    }

    /// A copy of this record, to serve as the realtime side's mirror.
    pub fn mirror(&self) -> (r: ParamRecord)
        ensures
            r@ == self@,
    {
        let mut fields: Vec<ParamValue> = Vec::new();
        let mut i: usize = 0;
        while i < self.fields.len()
            invariant
                i <= self.fields@.len(),
                fields@ == self.fields@.subrange(0, i as int),
            decreases self.fields@.len() - i,
        {
            fields.push(self.fields[i]);
            i = i + 1;
            assert(fields@ =~= self.fields@.subrange(0, i as int));
        }
        assert(fields@ =~= self.fields@);
        ParamRecord { fields }
    }

    /// The patches that take this record to `new`: for each field, in field
    /// order, one patch carrying its new value if it changed, none otherwise.
    pub fn diff(&self, new: &ParamRecord) -> (r: Vec<Patch>)
        requires
            self@.len() == new@.len(),
        ensures
            r@ == diff_spec(self@, new@),
    {
        let mut out: Vec<Patch> = Vec::new();
        let mut i: usize = 0;
        while i < self.fields.len()
            invariant
                i <= self@.len(),
                self@.len() == new@.len(),
                out@ == diff_upto(self@, new@, i as int),
            decreases self@.len() - i,
        {
            if self.fields[i] != new.fields[i] {
                out.push(Patch { path: i, value: new.fields[i] });
            }
            i = i + 1;
        }
        out
    }

    /// Overwrites the field that `p` addresses with the value it carries.
    /// Fails, changing nothing, when the record has no such field.
    pub fn apply(&mut self, p: &Patch) -> (r: Result<(), PatchError>)
        ensures
            r is Ok <==> p.path < old(self)@.len(),
            r is Err ==> r == Err::<(), PatchError>(PatchError::UnknownPath(p.path)),
            final(self)@ == apply_spec(old(self)@, *p),
    {
        if p.path < self.fields.len() {
            self.fields.set(p.path, p.value);
            Ok(())
        } else {
            Err(PatchError::UnknownPath(p.path))
        }
    }

    /// Applies the patches in order. Fails at the first patch whose path the
    /// record lacks; the patches before it stay applied.
    pub fn apply_all(&mut self, ps: &Vec<Patch>) -> (r: Result<(), PatchError>)
        ensures
            r is Ok <==> (forall|k: int| 0 <= k < ps@.len() ==> ps@[k].path < old(self)@.len()),
            r is Ok ==> final(self)@ == apply_all_spec(old(self)@, ps@),
            final(self)@.len() == old(self)@.len(),
    {
        let mut i: usize = 0;
        while i < ps.len()
            invariant
                i <= ps@.len(),
                self@.len() == old(self)@.len(),
                self@ == apply_all_spec(old(self)@, ps@.subrange(0, i as int)),
                forall|k: int| 0 <= k < i ==> ps@[k].path < old(self)@.len(),
            decreases ps@.len() - i,
        {
            let res = self.apply(&ps[i]);
            if res.is_err() {
                return res;
            }
            proof {
                let s = ps@.subrange(0, i + 1);
                assert(s.drop_last() =~= ps@.subrange(0, i as int));
            }
            i = i + 1;
        }
        assert(ps@.subrange(0, ps@.len() as int) =~= ps@);
        Ok(())
    }
}

/// Applying the diff from `a` to `b` on a mirror of `a` gives a mirror equal
/// to `b`, for records of the same shape.
pub proof fn lemma_apply_diff(a: Seq<ParamValue>, b: Seq<ParamValue>)
    requires
        a.len() == b.len(),
        a.len() <= usize::MAX,
    ensures
        apply_all_spec(a, diff_spec(a, b)) == b,
{
    lemma_apply_diff_upto(a, b, a.len() as int);
    assert(apply_all_spec(a, diff_spec(a, b)) =~= b);
}

proof fn lemma_apply_diff_upto(a: Seq<ParamValue>, b: Seq<ParamValue>, i: int)
    requires
        0 <= i <= a.len(),
        a.len() == b.len(),
        a.len() <= usize::MAX,
    ensures
        apply_all_spec(a, diff_upto(a, b, i)).len() == a.len(),
        forall|j: int|
            0 <= j < a.len() ==> apply_all_spec(a, diff_upto(a, b, i))[j] == if j < i {
                b[j]
            } else {
                a[j]
            },
    decreases i,
{
    if i > 0 {
        lemma_apply_diff_upto(a, b, i - 1);
        if a[i - 1] != b[i - 1] {
            let ps = diff_upto(a, b, i);
            assert(ps.drop_last() =~= diff_upto(a, b, i - 1));
        }
    }
}

/// The diff of a record with itself is empty.
pub proof fn lemma_diff_same(a: Seq<ParamValue>)
    ensures
        diff_spec(a, a).len() == 0,
{
    lemma_diff_same_upto(a, a.len() as int);
}

proof fn lemma_diff_same_upto(a: Seq<ParamValue>, i: int)
    ensures
        diff_upto(a, a, i).len() == 0,
    decreases i,
{
    if i > 0 {
        lemma_diff_same_upto(a, i - 1);
    }
}

/// Applying one patch twice gives the same record as applying it once.
pub proof fn lemma_apply_twice(m: Seq<ParamValue>, p: Patch)
    ensures
        apply_spec(apply_spec(m, p), p) == apply_spec(m, p),
{
    assert(apply_spec(apply_spec(m, p), p) =~= apply_spec(m, p));
}

} // verus!
