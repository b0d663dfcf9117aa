//! The diagnostic aggregator: per-category diagnostics for one file, with
//! category insertion order preserved and categories unique, plus the
//! pass/fail computation and the two report renderings.

use vstd::prelude::*;

use crate::strutil::{decimal_u128, join_comma, spec_decimal, spec_join_comma};

verus! {

/// One category of diagnostics: the fixed category label and the messages the
/// category's validator produced (possibly none).
pub struct CategoryReport {
    pub category: String,
    pub messages: Vec<String>,
}

/// The diagnostics of one file, grouped by category.  Categories are unique
/// and keep their insertion order, so reporting is deterministic.
pub struct Report {
    pub entries: Vec<CategoryReport>,
}

/// Total number of messages across the entries.
pub open spec fn spec_total_entries(entries: Seq<CategoryReport>) -> int
    decreases entries.len(),
{
    if entries.len() == 0 {
        0
    } else {
        spec_total_entries(entries.drop_last()) + entries.last().messages@.len()
    }
}

/// The labels of the entries with at least one message, in order.
pub open spec fn spec_failing_categories(entries: Seq<CategoryReport>) -> Seq<Seq<char>>
    decreases entries.len(),
{
    if entries.len() == 0 {
        Seq::empty()
    } else {
        let rest = spec_failing_categories(entries.drop_last());
        if entries.last().messages@.len() > 0 {
            rest.push(entries.last().category@)
        } else {
            rest
        }
    }
}

/// All messages of the entries, flattened in order.
pub open spec fn spec_all_messages(entries: Seq<CategoryReport>) -> Seq<Seq<char>>
    decreases entries.len(),
{
    if entries.len() == 0 {
        Seq::empty()
    } else {
        spec_all_messages(entries.drop_last()) + entries.last().messages.deep_view()
    }
}

impl Report {
    /// Categories are unique.
    pub open spec fn wf(&self) -> bool {
        forall|a: int, b: int|
            0 <= a < b < self.entries@.len() ==> self.entries@[a].category@
                != self.entries@[b].category@
    }

    /// Some entry carries this category label.
    pub open spec fn spec_has_category(&self, cat: Seq<char>) -> bool {
        exists|a: int| 0 <= a < self.entries@.len() && self.entries@[a].category@ == cat
    }

    /// Total number of messages.
    pub open spec fn spec_total(&self) -> int {
        spec_total_entries(self.entries@)
    }

    /// An empty report.
    pub fn new() -> (r: Report)
        ensures
            r.entries@.len() == 0,
            r.wf(),
    {
        Report { entries: Vec::new() }
    }

    /// Appends one category with its messages; the category must be new, which
    /// keeps categories unique and in insertion order.
    pub fn add_category(&mut self, category: String, messages: Vec<String>)
        requires
            !old(self).spec_has_category(category@),
            old(self).wf(),
        ensures
            final(self).entries@ == old(self).entries@.push(
                CategoryReport { category, messages },
            ),
            final(self).wf(),
    {
        proof {
            assert forall|a: int| 0 <= a < self.entries@.len() implies self.entries@[a].category@
                != category@ by {
                if self.entries@[a].category@ == category@ {
                    assert(self.spec_has_category(category@));
                }
            };
        }
        self.entries.push(CategoryReport { category, messages });
    }

    /// The total number of diagnostics in the report.
    pub fn total_errors(&self) -> (r: u128)
        ensures
            r == self.spec_total(),
    {
        let mut acc: u128 = 0;
        let mut i: usize = 0;
        proof {
            assert(self.entries@.take(0) =~= Seq::<CategoryReport>::empty());
        }
        while i < self.entries.len()
            invariant
                i <= self.entries@.len(),
                acc == spec_total_entries(self.entries@.take(i as int)),
                acc <= i * 0xffff_ffff_ffff_ffffu128,
            decreases self.entries@.len() - i,
        {
            let n = self.entries[i].messages.len();
            proof {
                assert(n <= 0xffff_ffff_ffff_ffffu128) by {
                    assert(usize::MAX <= u64::MAX);
                };
                assert(acc + n <= (i + 1) * 0xffff_ffff_ffff_ffffu128) by (nonlinear_arith)
                    requires
                        acc <= i * 0xffff_ffff_ffff_ffffu128,
                        n <= 0xffff_ffff_ffff_ffffu128,
                        i >= 0,
                ;
                assert((i + 1) * 0xffff_ffff_ffff_ffffu128 < u128::MAX) by (nonlinear_arith)
                    requires
                        i + 1 <= usize::MAX,
                ;
            }
            acc = acc + n as u128;
            i += 1;
            proof {
                assert(self.entries@.take(i as int).drop_last() =~= self.entries@.take(
                    i as int - 1,
                ));
            }
        }
        proof {
            assert(self.entries@.take(self.entries@.len() as int) =~= self.entries@);
        }
        acc
    }

    /// A file passes exactly when it has no diagnostics at all.
    pub fn passed(&self) -> (r: bool)
        ensures
            r == (self.spec_total() == 0),
    {
        self.total_errors() == 0
    }

    /// The labels of the categories with at least one message, in order.
    pub fn failing_categories(&self) -> (r: Vec<String>)
        ensures
            r.deep_view() == spec_failing_categories(self.entries@),
    {
        let mut r: Vec<String> = Vec::new();
        let mut i: usize = 0;
        proof {
            assert(self.entries@.take(0) =~= Seq::<CategoryReport>::empty());
            assert(r.deep_view() =~= spec_failing_categories(self.entries@.take(0)));
        }
        while i < self.entries.len()
            invariant
                i <= self.entries@.len(),
                r.deep_view() == spec_failing_categories(self.entries@.take(i as int)),
            decreases self.entries@.len() - i,
        {
            if self.entries[i].messages.len() > 0 {
                r.push(self.entries[i].category.clone());
            }
            i += 1;
            proof {
                assert(self.entries@.take(i as int).drop_last() =~= self.entries@.take(
                    i as int - 1,
                ));
                assert(r.deep_view() =~= spec_failing_categories(self.entries@.take(i as int)));
            }
        }
        proof {
            assert(self.entries@.take(self.entries@.len() as int) =~= self.entries@);
        }
        r
    }

    /// All messages, flattened in category order.
    pub fn all_messages(&self) -> (r: Vec<String>)
        ensures
            r.deep_view() == spec_all_messages(self.entries@),
    {
        let mut r: Vec<String> = Vec::new();
        let mut i: usize = 0;
        proof {
            assert(self.entries@.take(0) =~= Seq::<CategoryReport>::empty());
            assert(r.deep_view() =~= spec_all_messages(self.entries@.take(0)));
        }
        while i < self.entries.len()
            invariant
                i <= self.entries@.len(),
                r.deep_view() == spec_all_messages(self.entries@.take(i as int)),
            decreases self.entries@.len() - i,
        {
            let msgs = &self.entries[i].messages;
            let mut j: usize = 0;
            let ghost base = r.deep_view();
            while j < msgs.len()
                invariant
                    j <= msgs@.len(),
                    msgs == &self.entries@[i as int].messages,
                    i < self.entries@.len(),
                    r.deep_view() == base + msgs.deep_view().take(j as int),
                decreases msgs@.len() - j,
            {
                let ghost old_rs = r@;
                let ghost old_dv = r.deep_view();
                proof {
                    crate::strutil::lemma_string_vec_deep_view(r);
                    crate::strutil::lemma_string_vec_deep_view(*msgs);
                }
                r.push(msgs[j].clone());
                j += 1;
                proof {
                    crate::strutil::lemma_string_vec_deep_view(r);
                    assert(r.deep_view() =~= old_dv.push(msgs@[j - 1]@));
                    assert(r.deep_view() =~= base + msgs.deep_view().take(j as int));
                }
            }
            i += 1;
            proof {
                assert(msgs.deep_view().take(msgs.deep_view().len() as int) =~= msgs.deep_view());
                assert(self.entries@.take(i as int).drop_last() =~= self.entries@.take(
                    i as int - 1,
                ));
                assert(r.deep_view() =~= spec_all_messages(self.entries@.take(i as int)));
            }
        }
        proof {
            assert(self.entries@.take(self.entries@.len() as int) =~= self.entries@);
        }
        r
    }

    /// The one-line summary for a file: its path, the total diagnostic count,
    /// and the comma-joined failing category labels.
    pub fn summary_line(&self, path: &str) -> (r: String)
        ensures
            r@ == path@ + ","@ + spec_decimal(self.spec_total()) + ","@ + spec_join_comma(
                spec_failing_categories(self.entries@),
            ),
    {
        let mut s = String::from_str(path);
        s.append(",");
        s.append(decimal_u128(self.total_errors()).as_str());
        s.append(",");
        s.append(join_comma(&self.failing_categories()).as_str());
        s
    }

    /// The full report for a failing file: a header line with the path and the
    /// diagnostic count, then every message in category order.
    pub fn full_report_lines(&self, path: &str) -> (r: Vec<String>)
        ensures
            r.deep_view() == seq![
                "The file "@ + path@ + " has "@ + spec_decimal(self.spec_total()) + " errors:"@,
            ] + spec_all_messages(self.entries@),
    {
        let mut header = String::from_str("The file ");
        header.append(path);
        header.append(" has ");
        header.append(decimal_u128(self.total_errors()).as_str());
        header.append(" errors:");
        let mut r: Vec<String> = Vec::new();
        r.push(header);
        let msgs = self.all_messages();
        let mut j: usize = 0;
        let ghost base = r.deep_view();
        while j < msgs.len()
            invariant
                j <= msgs@.len(),
                msgs.deep_view() == spec_all_messages(self.entries@),
                r.deep_view() == base + msgs.deep_view().take(j as int),
            decreases msgs@.len() - j,
        {
            let ghost old_dv = r.deep_view();
            proof {
                crate::strutil::lemma_string_vec_deep_view(r);
                crate::strutil::lemma_string_vec_deep_view(msgs);
            }
            r.push(msgs[j].clone());
            j += 1;
            proof {
                crate::strutil::lemma_string_vec_deep_view(r);
                assert(r.deep_view() =~= old_dv.push(msgs@[j - 1]@));
                assert(r.deep_view() =~= base + msgs.deep_view().take(j as int));
            }
        }
        proof {
            assert(msgs.deep_view().take(msgs.deep_view().len() as int) =~= msgs.deep_view());
            assert(r.deep_view() =~= base + spec_all_messages(self.entries@));
        }
        r
    }
}

} // verus!
