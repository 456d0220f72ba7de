//! Memory map classifier: partitions a target's declared memory regions into
//! RAM, non-volatile (flash) and generic groups, preserving the descriptor's
//! original ordering within each group.

use vstd::prelude::*;
use vstd::seq_lib::*;

verus! {

/// The tag of a declared memory region.
#[derive(Clone, Copy, PartialEq, Eq, Structural, Debug)]
pub enum RegionKind {
    /// Neither RAM nor flash: device peripherals and the like.
    Generic,
    /// Volatile working memory.
    Ram,
    /// Flash memory that a program operation targets.
    NonVolatile,
}

/// One declared memory region of a target descriptor, reduced to what the
/// classification and planning logic reads: its tag, an optional
/// human-readable name, and its address range as start and length.
pub struct MemoryRegion {
    pub kind: RegionKind,
    pub name: Option<String>,
    pub start: u64,
    pub length: u64,
}

/// The three groups a region list is partitioned into. Each group keeps the
/// descriptor's original order.
pub struct Classified {
    pub ram: Vec<MemoryRegion>,
    pub non_volatile: Vec<MemoryRegion>,
    pub generic: Vec<MemoryRegion>,
}

/// The predicate selecting regions of one kind.
pub open spec fn has_kind(k: RegionKind) -> spec_fn(MemoryRegion) -> bool {
    |r: MemoryRegion| r.kind == k
}

/// Unfolds one step of `filter` over a push: the filtered sequence grows by
/// the pushed element exactly when the predicate accepts it.
proof fn lemma_filter_push(s: Seq<MemoryRegion>, x: MemoryRegion, pred: spec_fn(MemoryRegion) -> bool)
    ensures
        s.push(x).filter(pred) == if pred(x) {
            s.filter(pred).push(x)
        } else {
            s.filter(pred)
        },
{
    reveal(Seq::filter);
    assert(s.push(x).drop_last() =~= s);
    assert(s.push(x).last() == x);
}

/// Partitions a region list into its three groups.
///
/// Every input region lands in exactly one output group, the one matching its
/// tag; no region is dropped or duplicated, and each group preserves the
/// input's order: each group is precisely the input filtered by its kind.
pub fn classify(regions: Vec<MemoryRegion>) -> (c: Classified)
    ensures
        c.ram@ == regions@.filter(has_kind(RegionKind::Ram)),
        c.non_volatile@ == regions@.filter(has_kind(RegionKind::NonVolatile)),
        c.generic@ == regions@.filter(has_kind(RegionKind::Generic)),
{
    let ghost orig: Seq<MemoryRegion> = regions@;
    let mut rest: Vec<MemoryRegion> = regions;
    let mut c = Classified { ram: Vec::new(), non_volatile: Vec::new(), generic: Vec::new() };
    let ghost done: Seq<MemoryRegion> = Seq::empty();
    proof {
        reveal(Seq::filter);
        assert(orig =~= done + rest@);
    }
    while rest.len() > 0
        invariant
            orig == done + rest@,
            c.ram@ == done.filter(has_kind(RegionKind::Ram)),
            c.non_volatile@ == done.filter(has_kind(RegionKind::NonVolatile)),
            c.generic@ == done.filter(has_kind(RegionKind::Generic)),
        decreases rest.len(),
    {
        let ghost prev_rest = rest@;
        let r = rest.remove(0);
        proof {
            assert(prev_rest =~= seq![r] + rest@);
            assert(done + prev_rest =~= done.push(r) + rest@);
            lemma_filter_push(done, r, has_kind(RegionKind::Ram));
            lemma_filter_push(done, r, has_kind(RegionKind::NonVolatile));
            lemma_filter_push(done, r, has_kind(RegionKind::Generic));
        }
        match r.kind {
            RegionKind::Ram => c.ram.push(r),
            RegionKind::NonVolatile => c.non_volatile.push(r),
            RegionKind::Generic => c.generic.push(r),
        }
        proof {
            done = done.push(r);
        }
    }
    proof {
        assert(orig =~= done);
    }
    c
}

/// The classification is a total, order-preserving partition: the three
/// groups' lengths add up to the input's length, every member of a group
/// carries that group's tag, and every input region is found in the group
/// matching its tag.
pub proof fn lemma_classify_total_partition(s: Seq<MemoryRegion>)
    ensures
        s.filter(has_kind(RegionKind::Ram)).len() + s.filter(has_kind(RegionKind::NonVolatile)).len()
            + s.filter(has_kind(RegionKind::Generic)).len() == s.len(),
        forall|k: RegionKind, i: int|
            0 <= i < s.filter(has_kind(k)).len() ==> (#[trigger] s.filter(has_kind(k))[i]).kind == k,
        forall|i: int| 0 <= i < s.len() ==> s.filter(has_kind((#[trigger] s[i]).kind)).contains(s[i]),
    decreases s.len(),
{
    if s.len() == 0 {
        reveal(Seq::filter);
    } else {
        let prefix = s.drop_last();
        lemma_classify_total_partition(prefix);
        assert(s =~= prefix.push(s.last()));
        lemma_filter_push(prefix, s.last(), has_kind(RegionKind::Ram));
        lemma_filter_push(prefix, s.last(), has_kind(RegionKind::NonVolatile));
        lemma_filter_push(prefix, s.last(), has_kind(RegionKind::Generic));
        assert forall|k: RegionKind, i: int|
            0 <= i < s.filter(has_kind(k)).len() implies (#[trigger] s.filter(has_kind(k))[i]).kind
            == k by {
            lemma_filter_push(prefix, s.last(), has_kind(k));
            if i < prefix.filter(has_kind(k)).len() {
                assert(s.filter(has_kind(k))[i] == prefix.filter(has_kind(k))[i]);
            }
        }
        assert forall|i: int| 0 <= i < s.len() implies s.filter(
            has_kind((#[trigger] s[i]).kind),
        ).contains(s[i]) by {
            let k = s[i].kind;
            lemma_filter_push(prefix, s.last(), has_kind(k));
            if i < s.len() - 1 {
                assert(prefix[i] == s[i]);
                assert(prefix.filter(has_kind(k)).contains(prefix[i]));
                let j = choose|j: int|
                    0 <= j < prefix.filter(has_kind(k)).len() && prefix.filter(has_kind(k))[j]
                        == prefix[i];
                if has_kind(k)(s.last()) {
                    assert(s.filter(has_kind(k))[j] == prefix.filter(has_kind(k))[j]);
                } else {
                    assert(s.filter(has_kind(k)) == prefix.filter(has_kind(k)));
                }
            } else {
                assert(has_kind(k)(s.last()));
                let f = s.filter(has_kind(k));
                assert(f.last() == s.last());
            }
        }
    }
}

} // verus!
