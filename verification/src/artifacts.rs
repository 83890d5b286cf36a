//! The generated queries ("artifacts") answered against aggregated
//! metadata: default variant, display string, the applicable variants of a
//! platform, the primary variant of a platform, and the availability-
//! filtered variant of the applicable set for package-manager-shaped types.
//!
//! Every query is total: unknown platforms resolve to the empty list or to
//! the default variant, never to an error.

use vstd::prelude::*;

use crate::metadata::TypeMetadata;
use crate::parse::contains_string;

verus! {

/// Relies on `which::which`: whether an executable with the given name can
/// be found on this machine's search path. The answer depends on the
/// machine and its environment, so nothing is promised of it.
#[verifier::external_body]
pub(crate) fn executable_on_path(name: &String) -> bool {
    which::which(name.as_str()).is_ok()
}

impl TypeMetadata {
    /// The `default()` artifact: the index of the default variant. Total,
    /// never fails.
    pub fn default_variant(&self) -> (r: usize)
        requires
            self.deep_view().wf(),
        ensures
            r as int == self.deep_view().default_index,
    {
        self.default_index
    }

    /// The `display(v)` artifact: the display string of variant `v`. Total
    /// over the variants by construction.
    pub fn display(&self, v: usize) -> (r: &String)
        requires
            self.deep_view().wf(),
            (v as int) < self.deep_view().len(),
        ensures
            r@ == self.deep_view().display(v as int),
    {
        &self.variants[v].display_name
    }

    /// The `applicable_for(p)` artifact: every variant that declares
    /// platform `p`, in declaration order; the empty list for an unknown
    /// platform is a meaningful answer, not an error.
    pub fn applicable_for(&self, p: &String) -> (r: Vec<usize>)
        requires
            self.deep_view().wf(),
        ensures
            forall|a: int, b: int| 0 <= a < b < r@.len() ==> r@[a] < r@[b],
            forall|a: int|
                0 <= a < r@.len() ==> self.deep_view().declares(#[trigger] r@[a] as int, p@),
            forall|i: int|
                0 <= i < self.deep_view().len() ==> ((#[trigger] self.deep_view().declares(i, p@))
                    <==> r@.contains(i as usize)),
    {
        let n = self.variants.len();
        let mut out: Vec<usize> = Vec::new();
        let mut v: usize = 0;
        while v < n
            invariant
                n == self.variants.len(),
                v <= n,
                forall|a: int, b: int| 0 <= a < b < out@.len() ==> out@[a] < out@[b],
                forall|a: int| 0 <= a < out@.len() ==> (#[trigger] out@[a]) < v,
                forall|a: int|
                    0 <= a < out@.len() ==> self.deep_view().declares(#[trigger] out@[a] as int, p@),
                forall|i: int|
                    0 <= i < v ==> ((#[trigger] self.deep_view().declares(i, p@)) <==> out@.contains(
                        i as usize,
                    )),
            decreases n - v,
        {
            let ghost before = out@;
            if contains_string(&self.variants[v].platform_ids, p) {
                proof {
                    assert(self.deep_view().variants[v as int] == self.variants@[v as int].deep_view());
                    assert(self.deep_view().declares(v as int, p@));
                }
                out.push(v);
            } else {
                proof {
                    assert(self.deep_view().variants[v as int] == self.variants@[v as int].deep_view());
                    assert(!self.deep_view().declares(v as int, p@));
                }
            }
            proof {
                assert forall|i: int|
                    0 <= i < v + 1 implies ((#[trigger] self.deep_view().declares(i, p@))
                    <==> out@.contains(i as usize)) by {
                    if i < v {
                        if before.contains(i as usize) {
                            let a = choose|a: int| 0 <= a < before.len() && before[a] == i as usize;
                            assert(out@[a] == i as usize);
                        }
                        if out@.contains(i as usize) {
                            let a = choose|a: int| 0 <= a < out@.len() && out@[a] == i as usize;
                            if a < before.len() {
                                assert(before[a] == i as usize);
                            }
                        }
                    } else {
                        if self.deep_view().declares(i, p@) {
                            assert(out@[out@.len() - 1] == i as usize);
                        } else {
                            if out@.contains(i as usize) {
                                let a = choose|a: int| 0 <= a < out@.len() && out@[a] == i as usize;
                                assert(a < before.len() ==> before[a] < v);
                            }
                        }
                    }
                }
            }
            v = v + 1;
        }
        out
    }

    /// The `primary_for(p)` artifact: the variant that declares `p` as a
    /// primary platform (unique in well-formed metadata), or the default
    /// variant when none does. Total, never fails.
    pub fn primary_for(&self, p: &String) -> (r: usize)
        requires
            self.deep_view().wf(),
        ensures
            r as int == self.deep_view().primary_for(p@),
    {
        let n = self.variants.len();
        let mut v: usize = 0;
        while v < n
            invariant
                n == self.variants.len(),
                v <= n,
                self.deep_view().wf(),
                forall|m: int| 0 <= m < v ==> !(#[trigger] self.deep_view().declares_primary(m, p@)),
            decreases n - v,
        {
            if contains_string(&self.variants[v].primary_platform_ids, p) {
                proof {
                    assert(self.deep_view().variants[v as int] == self.variants@[v as int].deep_view());
                    assert(self.deep_view().declares_primary(v as int, p@));
                    assert(self.deep_view().has_primary(p@));
                    assert(self.deep_view().primary_index(p@) == v as int);
                }
                return v;
            }
            proof {
                assert(self.deep_view().variants[v as int] == self.variants@[v as int].deep_view());
                assert(!self.deep_view().declares_primary(v as int, p@));
            }
            v = v + 1;
        }
        proof {
            assert(!self.deep_view().has_primary(p@));
        }
        self.default_index
    }

    /// The `available_for(p)` artifact for package-manager-shaped types:
    /// the applicable variants whose display name resolves to an executable
    /// on this machine's search path. The resolver is best-effort, so only
    /// this much is promised: the result is a sub-list of the applicable
    /// variants, in declaration order.
    pub fn available_for(&self, p: &String) -> (r: Vec<usize>)
        requires
            self.deep_view().wf(),
        ensures
            forall|a: int, b: int| 0 <= a < b < r@.len() ==> r@[a] < r@[b],
            forall|a: int|
                0 <= a < r@.len() ==> self.deep_view().declares(#[trigger] r@[a] as int, p@),
    {
        let n = self.variants.len();
        let mut out: Vec<usize> = Vec::new();
        let mut v: usize = 0;
        while v < n
            invariant
                n == self.variants.len(),
                v <= n,
                forall|a: int, b: int| 0 <= a < b < out@.len() ==> out@[a] < out@[b],
                forall|a: int| 0 <= a < out@.len() ==> (#[trigger] out@[a]) < v,
                forall|a: int|
                    0 <= a < out@.len() ==> self.deep_view().declares(#[trigger] out@[a] as int, p@),
            decreases n - v,
        {
            if contains_string(&self.variants[v].platform_ids, p) {
                if executable_on_path(&self.variants[v].display_name) {
                    proof {
                        assert(self.deep_view().variants[v as int] == self.variants@[
                            v as int
                        ].deep_view());
                        assert(self.deep_view().declares(v as int, p@));
                    }
                    out.push(v);
                }
            }
            v = v + 1;
        }
        out
    }

    /// The injected-predicate form of availability: `present[v]` says
    /// whether variant `v`'s backing tool exists. The result is exactly the
    /// applicable variants marked present, in declaration order; an absent
    /// or failed entry is excluded, never an error.
    pub fn available_for_with(&self, p: &String, present: &Vec<bool>) -> (r: Vec<usize>)
        requires
            self.deep_view().wf(),
            present.len() == self.deep_view().len(),
        ensures
            forall|a: int, b: int| 0 <= a < b < r@.len() ==> r@[a] < r@[b],
            forall|a: int|
                0 <= a < r@.len() ==> self.deep_view().declares(#[trigger] r@[a] as int, p@)
                    && present@[r@[a] as int],
            forall|i: int|
                0 <= i < self.deep_view().len() ==> (((#[trigger] self.deep_view().declares(i, p@))
                    && present@[i]) <==> r@.contains(i as usize)),
    {
        let n = self.variants.len();
        let mut out: Vec<usize> = Vec::new();
        let mut v: usize = 0;
        while v < n
            invariant
                n == self.variants.len(),
                present.len() == n,
                v <= n,
                forall|a: int, b: int| 0 <= a < b < out@.len() ==> out@[a] < out@[b],
                forall|a: int| 0 <= a < out@.len() ==> (#[trigger] out@[a]) < v,
                forall|a: int|
                    0 <= a < out@.len() ==> self.deep_view().declares(#[trigger] out@[a] as int, p@)
                        && present@[out@[a] as int],
                forall|i: int|
                    0 <= i < v ==> (((#[trigger] self.deep_view().declares(i, p@)) && present@[i])
                        <==> out@.contains(i as usize)),
            decreases n - v,
        {
            let ghost before = out@;
            let hit = contains_string(&self.variants[v].platform_ids, p) && present[v];
            proof {
                assert(self.deep_view().variants[v as int] == self.variants@[v as int].deep_view());
            }
            if hit {
                proof {
                    assert(self.deep_view().declares(v as int, p@));
                }
                out.push(v);
            }
            proof {
                assert forall|i: int|
                    0 <= i < v + 1 implies (((#[trigger] self.deep_view().declares(i, p@))
                    && present@[i]) <==> out@.contains(i as usize)) by {
                    if i < v {
                        if before.contains(i as usize) {
                            let a = choose|a: int| 0 <= a < before.len() && before[a] == i as usize;
                            assert(out@[a] == i as usize);
                        }
                        if out@.contains(i as usize) {
                            let a = choose|a: int| 0 <= a < out@.len() && out@[a] == i as usize;
                            if a < before.len() {
                                assert(before[a] == i as usize);
                            }
                        }
                    } else {
                        if self.deep_view().declares(i, p@) && present@[i] {
                            assert(out@[out@.len() - 1] == i as usize);
                        } else {
                            if out@.contains(i as usize) {
                                let a = choose|a: int| 0 <= a < out@.len() && out@[a] == i as usize;
                                assert(a < before.len() ==> before[a] < v);
                            }
                        }
                    }
                }
            }
            v = v + 1;
        }
        out
    }
}

} // verus!
