//! The health score of a project, from 0 to 100, computed from its diagnostics.
//!
//! Deductions are exact decimals, kept in hundredths of a point. Each finding deducts its
//! severity's amount times its category's weight; the findings of one rule deduct at most the
//! largest cap that one of them sets; the score is 100 minus all deductions, kept within
//! 0 and 100 and rounded to the nearest point, halves up.
use vstd::prelude::*;

use crate::diagnostic::{category_weight_tenths, models, Category, Diagnostic, DiagnosticModel, Severity};
use crate::text::str_eq;

verus! {

/// What one finding deducts, in hundredths: 2 points (error) or 0.4 (warning) times the
/// category weight; information deducts nothing.
pub open spec fn per_instance(d: DiagnosticModel) -> int {
    let w = category_weight_tenths(d.category) as int;
    match d.severity {
        Severity::Error => 20 * w,
        Severity::Warning => 4 * w,
        Severity::Info => 0,
    }
}

/// The cap that one finding sets on its rule, in hundredths: 4 points (error) or 1.5 (warning)
/// times the category weight, nothing for information. A rule deducts at most the largest cap
/// among its findings.
pub open spec fn rule_cap(d: DiagnosticModel) -> int {
    let w = category_weight_tenths(d.category) as int;
    match d.severity {
        Severity::Error => 40 * w,
        Severity::Warning => 15 * w,
        Severity::Info => 0,
    }
}

/// The position of the entry for `rule`, or the number of entries when there is none.
pub open spec fn entry_index(es: Seq<(Seq<char>, int, int)>, rule: Seq<char>) -> int
    decreases es.len(),
{
    if es.len() == 0 {
        0
    } else if es[0].0 == rule {
        0
    } else {
        1 + entry_index(es.drop_first(), rule)
    }
}

/// The larger of two integers.
pub open spec fn max_int(a: int, b: int) -> int {
    if a >= b {
        a
    } else {
        b
    }
}

/// Per rule, in order of first finding: the rule, its summed deductions and the largest cap
/// among its findings.
pub open spec fn deduction_entries(ds: Seq<DiagnosticModel>) -> Seq<(Seq<char>, int, int)>
    decreases ds.len(),
{
    if ds.len() == 0 {
        Seq::empty()
    } else {
        let es = deduction_entries(ds.drop_last());
        let d = ds.last();
        let j = entry_index(es, d.rule);
        if j < es.len() {
            es.update(j, (es[j].0, es[j].1 + per_instance(d), max_int(es[j].2, rule_cap(d))))
        } else {
            es.push((d.rule, per_instance(d), rule_cap(d)))
        }
    }
}

/// The smaller of two integers.
pub open spec fn min_int(a: int, b: int) -> int {
    if a <= b {
        a
    } else {
        b
    }
}

/// The sum over the entries of each rule's deduction, held to its cap.
pub open spec fn capped_total(es: Seq<(Seq<char>, int, int)>) -> int
    decreases es.len(),
{
    if es.len() == 0 {
        0
    } else {
        capped_total(es.drop_last()) + min_int(es.last().1, es.last().2)
    }
}

/// The exact score in hundredths of a point, between 0 and 10000.
pub open spec fn score_hundredths(ds: Seq<DiagnosticModel>) -> int {
    10000 - min_int(capped_total(deduction_entries(ds)), 10000)
}

/// A score in hundredths rounded to whole points, halves up.
pub open spec fn rounded(h: int) -> int {
    (h + 50) / 100
}

/// The word for a score.
pub open spec fn score_label(value: int) -> Seq<char> {
    if value >= 85 {
        "Healthy"@
    } else if value >= 70 {
        "Needs attention"@
    } else if value >= 50 {
        "Unhealthy"@
    } else {
        "Critical"@
    }
}

/// The label bands: 85 and above is "Healthy", 70 to 84 "Needs attention", 50 to 69
/// "Unhealthy", 49 and below "Critical".
pub proof fn law_score_label_bands(value: int)
    ensures
        85 <= value ==> score_label(value) == "Healthy"@,
        70 <= value <= 84 ==> score_label(value) == "Needs attention"@,
        50 <= value <= 69 ==> score_label(value) == "Unhealthy"@,
        value <= 49 ==> score_label(value) == "Critical"@,
{
}

/// A score and the word for it.
#[derive(Debug, Clone)]
pub struct ScoreResult {
    pub value: u32,
    pub label: &'static str,
}

/// The word for a score of `value` points.
pub fn label_for(value: u32) -> (r: &'static str)
    ensures
        r@ == score_label(value as int),
        85 <= value ==> r@ == "Healthy"@,
        70 <= value <= 84 ==> r@ == "Needs attention"@,
        50 <= value <= 69 ==> r@ == "Unhealthy"@,
        value <= 49 ==> r@ == "Critical"@,
{
    if value >= 85 {
        "Healthy"
    } else if value >= 70 {
        "Needs attention"
    } else if value >= 50 {
        "Unhealthy"
    } else {
        "Critical"
    }
}

proof fn lemma_entry_index(es: Seq<(Seq<char>, int, int)>, rule: Seq<char>, j: int)
    requires
        0 <= j <= es.len(),
        forall|i: int| 0 <= i < j ==> #[trigger] es[i].0 != rule,
        j == es.len() || es[j].0 == rule,
    ensures
        entry_index(es, rule) == j,
    decreases es.len(),
{
    if es.len() > 0 && j > 0 {
        let rest = es.drop_first();
        assert forall|i: int| 0 <= i < j - 1 implies #[trigger] rest[i].0 != rule by {
            assert(rest[i] == es[i + 1]);
        }
        if j < es.len() {
            assert(rest[j - 1] == es[j]);
        }
        lemma_entry_index(rest, rule, j - 1);
    }
}

proof fn lemma_entry_index_range(es: Seq<(Seq<char>, int, int)>, rule: Seq<char>)
    ensures
        0 <= entry_index(es, rule) <= es.len(),
    decreases es.len(),
{
    if es.len() > 0 && es[0].0 != rule {
        lemma_entry_index_range(es.drop_first(), rule);
    }
}

/// Deductions are never negative and caps lie between 0 and 6 points.
proof fn lemma_entries_bounds(ds: Seq<DiagnosticModel>)
    ensures
        forall|k: int|
            0 <= k < deduction_entries(ds).len() ==> #[trigger] deduction_entries(ds)[k].1 >= 0
                && 0 <= deduction_entries(ds)[k].2 <= 600,
    decreases ds.len(),
{
    if ds.len() > 0 {
        lemma_entries_bounds(ds.drop_last());
        let es = deduction_entries(ds.drop_last());
        lemma_entry_index_range(es, ds.last().rule);
    }
}

/// The rule names, held deductions and caps kept while scoring agree with the entries.
spec fn entries_match(rules: Seq<String>, held: Seq<u64>, caps: Seq<u64>, es: Seq<(Seq<char>, int, int)>) -> bool {
    &&& rules.len() == es.len()
    &&& held.len() == es.len()
    &&& caps.len() == es.len()
    &&& forall|k: int| 0 <= k < es.len() ==> (#[trigger] rules[k])@ == es[k].0
    &&& forall|k: int| 0 <= k < es.len() ==> #[trigger] caps[k] == es[k].2
    &&& forall|k: int| 0 <= k < es.len() ==> #[trigger] held[k] == min_int(es[k].1, 600)
}

/// The capped total of a prefix of the entries.
proof fn lemma_capped_total_take(es: Seq<(Seq<char>, int, int)>, k: int)
    requires
        0 <= k < es.len(),
    ensures
        capped_total(es.take(k + 1)) == capped_total(es.take(k)) + min_int(es[k].1, es[k].2),
{
    assert(es.take(k + 1).drop_last() =~= es.take(k));
    assert(es.take(k + 1).last() == es[k]);
}

/// Computes the health score of a project from its diagnostics.
pub fn compute_score(diagnostics: &[Diagnostic]) -> (r: ScoreResult)
    ensures
        r.value as int == rounded(score_hundredths(models(diagnostics@))),
        r.value as int * 100 - 50 <= score_hundredths(models(diagnostics@)) < r.value as int * 100 + 50,
        r.value <= 100,
        r.label@ == score_label(r.value as int),
        85 <= r.value ==> r.label@ == "Healthy"@,
        70 <= r.value <= 84 ==> r.label@ == "Needs attention"@,
        50 <= r.value <= 69 ==> r.label@ == "Unhealthy"@,
        r.value <= 49 ==> r.label@ == "Critical"@,
{
    let ghost ms = models(diagnostics@);
    let mut rules: Vec<String> = Vec::new();
    let mut held: Vec<u64> = Vec::new();
    let mut caps: Vec<u64> = Vec::new();
    let n = diagnostics.len();
    let mut i: usize = 0;
    while i < n
        invariant
            i <= n,
            n == diagnostics@.len(),
            ms == models(diagnostics@),
            rules.len() == deduction_entries(ms.take(i as int)).len(),
            held.len() == rules.len(),
            caps.len() == rules.len(),
            entries_match(rules@, held@, caps@, deduction_entries(ms.take(i as int))),
        decreases n - i,
    {
        let ghost es = deduction_entries(ms.take(i as int));
        let d = &diagnostics[i];
        proof {
            assert(ms.take(i + 1).drop_last() =~= ms.take(i as int));
            assert(ms.take(i + 1).last() == ms[i as int]);
            assert(ms[i as int] == d@);
            lemma_entries_bounds(ms.take(i as int));
        }
        let w = d.category.weight_tenths() as u64;
        let (per, cap): (u64, u64) = match d.severity {
            Severity::Error => (20 * w, 40 * w),
            Severity::Warning => (4 * w, 15 * w),
            Severity::Info => (0, 0),
        };
        let mut j: usize = 0;
        while j < rules.len() && !str_eq(rules[j].as_str(), d.rule.as_str())
            invariant
                j <= rules.len(),
                rules.len() == es.len(),
                forall|k: int| 0 <= k < rules.len() ==> (#[trigger] rules@[k])@ == es[k].0,
                forall|t: int| 0 <= t < j ==> #[trigger] es[t].0 != d.rule@,
            decreases rules.len() - j,
        {
            assert(rules@[j as int]@ == es[j as int].0);
            j = j + 1;
        }
        proof {
            if j < rules.len() {
                assert(rules@[j as int]@ == es[j as int].0);
            }
            lemma_entry_index(es, d.rule@, j as int);
        }
        proof {
            assert(per == per_instance(d@));
            assert(cap == rule_cap(d@));
            assert(deduction_entries(ms.take(i + 1)) == if j < es.len() {
                es.update(j as int, (es[j as int].0, es[j as int].1 + per_instance(d@), max_int(es[j as int].2, rule_cap(d@))))
            } else {
                es.push((d@.rule, per_instance(d@), rule_cap(d@)))
            });
        }
        let ghost es2 = deduction_entries(ms.take(i + 1));
        if j < rules.len() {
            let sum = held[j] + per;
            let now = if sum < 600 { sum } else { 600 };
            held.set(j, now);
            let widest = if caps[j] >= cap { caps[j] } else { cap };
            caps.set(j, widest);
            proof {
                assert forall|k: int| 0 <= k < rules.len() implies {
                    &&& (#[trigger] rules@[k])@ == es2[k].0
                    &&& caps@[k] == es2[k].2
                    &&& held@[k] == min_int(es2[k].1, 600)
                } by {
                    if k != j {
                        assert(es2[k] == es[k]);
                    } else {
                        assert(es2[k] == (es[k].0, es[k].1 + per_instance(d@), max_int(es[k].2, rule_cap(d@))));
                    }
                    assert(rules@[k]@ =~= es2[k].0);
                }
            }
        } else {
            let key = d.rule.clone();
            rules.push(key);
            held.push(per);
            caps.push(cap);
            proof {
                assert forall|k: int| 0 <= k < rules.len() implies {
                    &&& (#[trigger] rules@[k])@ == es2[k].0
                    &&& caps@[k] == es2[k].2
                    &&& held@[k] == min_int(es2[k].1, 600)
                } by {
                    if k < es.len() {
                        assert(es2[k] == es[k]);
                    } else {
                        assert(es2[k] == (d@.rule, per_instance(d@), rule_cap(d@)));
                    }
                    assert(rules@[k]@ =~= es2[k].0);
                }
            }
        }
        i = i + 1;
        proof {
            assert(es2 == deduction_entries(ms.take(i as int)));
        }
    }
    proof {
        assert(ms.take(n as int) =~= ms);
        lemma_entries_bounds(ms);
        let es = deduction_entries(ms);
        assert forall|t: int| 0 <= t < es.len() implies #[trigger] held@[t] == min_int(es[t].1, 600) by {
            assert(rules@[t]@ == es[t].0);
        }
        assert forall|t: int| 0 <= t < es.len() implies #[trigger] caps@[t] == es[t].2 by {
            assert(rules@[t]@ == es[t].0);
        }
    }
    let ghost es = deduction_entries(ms);
    let mut total: u64 = 0;
    let m = rules.len();
    for k in 0..m
        invariant
            m == rules.len(),
            es == deduction_entries(ms),
            rules.len() == es.len(),
            held.len() == es.len(),
            caps.len() == es.len(),
            forall|t: int| 0 <= t < es.len() ==> #[trigger] held@[t] == min_int(es[t].1, 600),
            forall|t: int| 0 <= t < es.len() ==> #[trigger] caps@[t] == es[t].2,
            forall|t: int| 0 <= t < es.len() ==> #[trigger] es[t].1 >= 0 && 0 <= es[t].2 <= 600,
            total == min_int(capped_total(es.take(k as int)), 10000),
            capped_total(es.take(k as int)) >= 0,
    {
        proof {
            lemma_capped_total_take(es, k as int);
            assert(held@[k as int] == min_int(es[k as int].1, 600));
            assert(caps@[k as int] == es[k as int].2);
            assert(es[k as int].1 >= 0 && 0 <= es[k as int].2 <= 600);
        }
        let capped = if held[k] < caps[k] { held[k] } else { caps[k] };
        let sum = total + capped;
        total = if sum < 10000 { sum } else { 10000 };
    }
    proof {
        assert(es.take(m as int) =~= es);
    }
    let hundredths = 10000 - total;
    let value = ((hundredths + 50) / 100) as u32;
    ScoreResult { value, label: label_for(value) }
}


/// With no findings the score is a full 100, "Healthy".
pub proof fn lemma_no_findings_full_score()
    ensures
        score_hundredths(Seq::empty()) == 10000,
        rounded(score_hundredths(Seq::empty())) == 100,
        score_label(100) == "Healthy"@,
{
    assert(deduction_entries(Seq::<DiagnosticModel>::empty()) =~= Seq::empty());
}

proof fn lemma_info_entries_zero(ds: Seq<DiagnosticModel>)
    requires
        forall|i: int| 0 <= i < ds.len() ==> (#[trigger] ds[i]).severity == Severity::Info,
    ensures
        forall|k: int|
            0 <= k < deduction_entries(ds).len() ==> #[trigger] deduction_entries(ds)[k].1 == 0
                && deduction_entries(ds)[k].2 == 0,
        capped_total(deduction_entries(ds)) == 0,
    decreases ds.len(),
{
    if ds.len() > 0 {
        assert forall|i: int| 0 <= i < ds.drop_last().len() implies (#[trigger] ds.drop_last()[i]).severity
            == Severity::Info by {
            assert(ds.drop_last()[i] == ds[i]);
        }
        lemma_info_entries_zero(ds.drop_last());
        let es = deduction_entries(ds.drop_last());
        assert(ds.last() == ds[ds.len() - 1]);
        lemma_entry_index_range(es, ds.last().rule);
        lemma_zero_total(deduction_entries(ds));
    } else {
        assert(deduction_entries(ds) =~= Seq::empty());
    }
}

proof fn lemma_zero_total(es: Seq<(Seq<char>, int, int)>)
    requires
        forall|k: int| 0 <= k < es.len() ==> #[trigger] es[k].1 == 0 && es[k].2 == 0,
    ensures
        capped_total(es) == 0,
    decreases es.len(),
{
    if es.len() > 0 {
        assert forall|k: int| 0 <= k < es.drop_last().len() implies #[trigger] es.drop_last()[k].1 == 0
            && es.drop_last()[k].2 == 0 by {
            assert(es.drop_last()[k] == es[k]);
        }
        lemma_zero_total(es.drop_last());
        assert(es.last() == es[es.len() - 1]);
    }
}

/// Findings of severity "info" never lower the score: with only such findings it is 100.
pub proof fn lemma_info_costs_nothing(ds: Seq<DiagnosticModel>)
    requires
        forall|i: int| 0 <= i < ds.len() ==> (#[trigger] ds[i]).severity == Severity::Info,
    ensures
        score_hundredths(ds) == 10000,
        rounded(score_hundredths(ds)) == 100,
{
    lemma_info_entries_zero(ds);
}

proof fn lemma_capped_total_update(es: Seq<(Seq<char>, int, int)>, j: int, sum: int, cap: int)
    requires
        0 <= j < es.len(),
        sum >= es[j].1,
        cap >= es[j].2,
    ensures
        capped_total(es.update(j, (es[j].0, sum, cap))) >= capped_total(es),
    decreases es.len(),
{
    let up = es.update(j, (es[j].0, sum, cap));
    if j < es.len() - 1 {
        assert(up.drop_last() =~= es.drop_last().update(j, (es[j].0, sum, cap)));
        assert(es.drop_last()[j] == es[j]);
        lemma_capped_total_update(es.drop_last(), j, sum, cap);
        assert(up.last() == es.last());
    } else {
        assert(up.drop_last() =~= es.drop_last());
    }
}

/// One more finding never raises the score.
pub proof fn lemma_more_findings_never_raise_score(ds: Seq<DiagnosticModel>, d: DiagnosticModel)
    ensures
        score_hundredths(ds.push(d)) <= score_hundredths(ds),
{
    let es = deduction_entries(ds);
    assert(ds.push(d).drop_last() =~= ds);
    assert(ds.push(d).last() == d);
    lemma_entry_index_range(es, d.rule);
    let j = entry_index(es, d.rule);
    if j < es.len() {
        lemma_capped_total_update(es, j, es[j].1 + per_instance(d), max_int(es[j].2, rule_cap(d)));
    } else {
        assert(es.push((d.rule, per_instance(d), rule_cap(d))).drop_last() =~= es);
    }
}

proof fn lemma_one_rule_one_entry(ds: Seq<DiagnosticModel>, rule: Seq<char>)
    requires
        forall|i: int| 0 <= i < ds.len() ==> (#[trigger] ds[i]).rule == rule,
    ensures
        deduction_entries(ds).len() <= 1,
        deduction_entries(ds).len() == 1 ==> deduction_entries(ds)[0].0 == rule,
    decreases ds.len(),
{
    if ds.len() > 0 {
        assert forall|i: int| 0 <= i < ds.drop_last().len() implies (#[trigger] ds.drop_last()[i]).rule
            == rule by {
            assert(ds.drop_last()[i] == ds[i]);
        }
        lemma_one_rule_one_entry(ds.drop_last(), rule);
        assert(ds.last() == ds[ds.len() - 1]);
        let es = deduction_entries(ds.drop_last());
        if es.len() == 1 {
            assert(entry_index(es, rule) == 0);
        } else {
            assert(es =~= Seq::empty());
        }
    } else {
        assert(deduction_entries(ds) =~= Seq::empty());
    }
}

/// However many findings one rule reports, they cost at most 6 points together.
pub proof fn lemma_one_rule_costs_at_most_six_points(ds: Seq<DiagnosticModel>, rule: Seq<char>)
    requires
        forall|i: int| 0 <= i < ds.len() ==> (#[trigger] ds[i]).rule == rule,
    ensures
        score_hundredths(ds) >= 9400,
{
    lemma_one_rule_one_entry(ds, rule);
    lemma_entries_bounds(ds);
    let es = deduction_entries(ds);
    if es.len() == 1 {
        assert(es.drop_last() =~= Seq::empty());
        assert(capped_total(es.drop_last()) == 0);
        assert(es.last() == es[0]);
        assert(es[0].1 >= 0 && 0 <= es[0].2 <= 600);
        assert(capped_total(es) <= 600);
    } else {
        assert(es =~= Seq::empty());
        assert(capped_total(es) == 0);
    }
}

/// How many findings of `ds` belong to `rule`.
pub open spec fn rule_count(ds: Seq<DiagnosticModel>, rule: Seq<char>) -> nat
    decreases ds.len(),
{
    if ds.len() == 0 {
        0
    } else {
        rule_count(ds.drop_last(), rule) + if ds.last().rule == rule {
            1nat
        } else {
            0nat
        }
    }
}

/// Every finding of `d`'s rule has `d`'s severity and category.
pub open spec fn uniform_rule(ds: Seq<DiagnosticModel>, d: DiagnosticModel) -> bool {
    forall|i: int|
        0 <= i < ds.len() && (#[trigger] ds[i]).rule == d.rule ==> ds[i].severity == d.severity
            && ds[i].category == d.category
}

/// What `entry_index` finds: the first entry of `rule`, after entries of other rules.
proof fn lemma_entry_index_props(es: Seq<(Seq<char>, int, int)>, rule: Seq<char>)
    ensures
        0 <= entry_index(es, rule) <= es.len(),
        forall|i: int| 0 <= i < entry_index(es, rule) ==> #[trigger] es[i].0 != rule,
        entry_index(es, rule) < es.len() ==> es[entry_index(es, rule)].0 == rule,
    decreases es.len(),
{
    if es.len() > 0 && es[0].0 != rule {
        let rest = es.drop_first();
        lemma_entry_index_props(rest, rule);
        assert forall|i: int| 0 <= i < entry_index(es, rule) implies #[trigger] es[i].0 != rule by {
            if i > 0 {
                assert(es[i] == rest[i - 1]);
            }
        }
        if entry_index(es, rule) < es.len() {
            assert(es[entry_index(es, rule)] == rest[entry_index(rest, rule)]);
        }
    }
}

/// The closed form of one rule's deduction: where all findings of a rule share a severity and
/// a category, the rule has an entry exactly when it has findings, and that entry sums the
/// per-finding amount once per finding, under the cap of that severity and category.
pub proof fn law_uniform_rule_deduction(ds: Seq<DiagnosticModel>, d: DiagnosticModel)
    requires
        uniform_rule(ds, d),
    ensures
        (entry_index(deduction_entries(ds), d.rule) < deduction_entries(ds).len()) <==> rule_count(
            ds,
            d.rule,
        ) > 0,
        rule_count(ds, d.rule) > 0 ==> deduction_entries(ds)[entry_index(deduction_entries(ds), d.rule)].1
            == rule_count(ds, d.rule) * per_instance(d),
        rule_count(ds, d.rule) > 0 ==> deduction_entries(ds)[entry_index(deduction_entries(ds), d.rule)].2
            == rule_cap(d),
    decreases ds.len(),
{
    let es2 = deduction_entries(ds);
    lemma_entry_index_props(es2, d.rule);
    if ds.len() > 0 {
        let init = ds.drop_last();
        let x = ds.last();
        assert forall|i: int| 0 <= i < init.len() && (#[trigger] init[i]).rule == d.rule implies init[i].severity
            == d.severity && init[i].category == d.category by {
            assert(init[i] == ds[i]);
        }
        law_uniform_rule_deduction(init, d);
        let es = deduction_entries(init);
        lemma_entry_index_props(es, d.rule);
        lemma_entry_index_props(es, x.rule);
        let j = entry_index(es, x.rule);
        let k = entry_index(es, d.rule);
        assert(x == ds[ds.len() - 1]);
        if x.rule == d.rule {
            assert(per_instance(x) == per_instance(d));
            assert(rule_cap(x) == rule_cap(d));
            if j < es.len() {
                lemma_entry_index(es2, d.rule, j);
                assert(es2[j].1 == es[j].1 + per_instance(d));
                assert(rule_count(ds, d.rule) == rule_count(init, d.rule) + 1);
                assert(rule_count(init, d.rule) > 0);
                assert(es[j].1 == rule_count(init, d.rule) * per_instance(d));
                let n = rule_count(init, d.rule);
                let p = per_instance(d);
                assert(rule_count(ds, d.rule) * p == n * p + p) by (nonlinear_arith)
                    requires
                        rule_count(ds, d.rule) == n + 1,
                ;
            } else {
                assert forall|i: int| 0 <= i < es.len() implies #[trigger] es2[i].0 != d.rule by {
                    assert(es2[i] == es[i]);
                }
                lemma_entry_index(es2, d.rule, es.len() as int);
                assert(rule_count(ds, d.rule) == 1);
                assert(es2[es.len() as int].1 == per_instance(d));
                let p = per_instance(d);
                assert(rule_count(ds, d.rule) * p == p) by (nonlinear_arith)
                    requires
                        rule_count(ds, d.rule) == 1,
                ;
            }
        } else {
            if j < es.len() {
                assert forall|i: int| 0 <= i < k implies #[trigger] es2[i].0 != d.rule by {
                    assert(es2[i].0 == es[i].0);
                }
                if k < es.len() {
                    assert(es2[k].0 == es[k].0);
                    assert(es2[k] == es[k]);
                }
                lemma_entry_index(es2, d.rule, k);
            } else if k < es.len() {
                assert forall|i: int| 0 <= i < k implies #[trigger] es2[i].0 != d.rule by {
                    assert(es2[i] == es[i]);
                }
                assert(es2[k] == es[k]);
                lemma_entry_index(es2, d.rule, k);
            } else {
                assert forall|i: int| 0 <= i < es2.len() implies #[trigger] es2[i].0 != d.rule by {
                    if i < es.len() {
                        assert(es2[i] == es[i]);
                    }
                }
                lemma_entry_index(es2, d.rule, es2.len() as int);
            }
            assert(rule_count(ds, d.rule) == rule_count(init, d.rule));
        }
    } else {
        assert(es2 =~= Seq::empty());
    }
}

/// One finding's effect on the entries: it adds to its rule's entry, or opens one.
pub open spec fn entry_step(es: Seq<(Seq<char>, int, int)>, d: DiagnosticModel) -> Seq<(Seq<char>, int, int)> {
    let j = entry_index(es, d.rule);
    if j < es.len() {
        es.update(j, (es[j].0, es[j].1 + per_instance(d), max_int(es[j].2, rule_cap(d))))
    } else {
        es.push((d.rule, per_instance(d), rule_cap(d)))
    }
}

/// `s` with the elements at `p` and `p + 1` exchanged.
pub open spec fn exchanged<A>(s: Seq<A>, p: int) -> Seq<A> {
    s.update(p, s[p + 1]).update(p + 1, s[p])
}

/// No two entries are for the same rule.
spec fn distinct_rules(es: Seq<(Seq<char>, int, int)>) -> bool {
    forall|a: int, b: int| 0 <= a < b < es.len() ==> #[trigger] es[a].0 != #[trigger] es[b].0
}

proof fn lemma_step_keeps_distinct(es: Seq<(Seq<char>, int, int)>, d: DiagnosticModel)
    requires
        distinct_rules(es),
    ensures
        distinct_rules(entry_step(es, d)),
        entry_step(es, d).len() >= es.len(),
        forall|a: int| 0 <= a < es.len() ==> #[trigger] entry_step(es, d)[a].0 == es[a].0,
{
    lemma_entry_index_props(es, d.rule);
    let fs = entry_step(es, d);
    assert forall|a: int, b: int| 0 <= a < b < fs.len() implies #[trigger] fs[a].0 != #[trigger] fs[b].0 by {
        if b < es.len() {
            assert(fs[a].0 == es[a].0 && fs[b].0 == es[b].0);
        } else {
            assert(fs[a].0 == es[a].0);
        }
    }
}

proof fn lemma_entries_step(ds: Seq<DiagnosticModel>)
    requires
        ds.len() > 0,
    ensures
        deduction_entries(ds) == entry_step(deduction_entries(ds.drop_last()), ds.last()),
{
}

proof fn lemma_entries_distinct(ds: Seq<DiagnosticModel>)
    ensures
        distinct_rules(deduction_entries(ds)),
    decreases ds.len(),
{
    if ds.len() > 0 {
        lemma_entries_distinct(ds.drop_last());
        lemma_step_keeps_distinct(deduction_entries(ds.drop_last()), ds.last());
        lemma_entries_step(ds);
    } else {
        assert(deduction_entries(ds) =~= Seq::empty());
    }
}

/// The entry index of a rule in distinct entries is the place of that rule.
proof fn lemma_index_at(es: Seq<(Seq<char>, int, int)>, rule: Seq<char>, j: int)
    requires
        distinct_rules(es),
        0 <= j < es.len(),
        es[j].0 == rule,
    ensures
        entry_index(es, rule) == j,
{
    assert forall|i: int| 0 <= i < j implies #[trigger] es[i].0 != rule by {
        assert(es[i].0 != es[j].0);
    }
    lemma_entry_index(es, rule, j);
}

/// Two findings taken in either order give the same entries, but for the two entries they
/// open when both rules are new, which then come in the other order.
proof fn lemma_two_steps(es: Seq<(Seq<char>, int, int)>, a: DiagnosticModel, b: DiagnosticModel)
    requires
        distinct_rules(es),
    ensures
        (a.rule == b.rule || entry_index(es, a.rule) < es.len() || entry_index(es, b.rule) < es.len())
            ==> entry_step(entry_step(es, a), b) == entry_step(entry_step(es, b), a),
        !(a.rule == b.rule || entry_index(es, a.rule) < es.len() || entry_index(es, b.rule) < es.len())
            ==> entry_step(entry_step(es, b), a) == exchanged(entry_step(entry_step(es, a), b), es.len() as int)
            && entry_step(entry_step(es, a), b).len() == es.len() + 2,
{
    lemma_entry_index_props(es, a.rule);
    lemma_entry_index_props(es, b.rule);
    lemma_step_keeps_distinct(es, a);
    lemma_step_keeps_distinct(es, b);
    let ea = entry_step(es, a);
    let eb = entry_step(es, b);
    let ja = entry_index(es, a.rule);
    let jb = entry_index(es, b.rule);
    let n = es.len() as int;
    // Where each rule sits after the other one's step.
    if jb < n {
        lemma_index_at(ea, b.rule, jb);
    } else if a.rule == b.rule {
        lemma_index_at(ea, b.rule, n);
    } else {
        assert forall|i: int| 0 <= i < ea.len() implies #[trigger] ea[i].0 != b.rule by {
            if i < n {
                assert(ea[i].0 == es[i].0);
            }
        }
        lemma_entry_index(ea, b.rule, ea.len() as int);
    }
    if ja < n {
        lemma_index_at(eb, a.rule, ja);
    } else if a.rule == b.rule {
        lemma_index_at(eb, a.rule, n);
    } else {
        assert forall|i: int| 0 <= i < eb.len() implies #[trigger] eb[i].0 != a.rule by {
            if i < n {
                assert(eb[i].0 == es[i].0);
            }
        }
        lemma_entry_index(eb, a.rule, eb.len() as int);
    }
    let l = entry_step(ea, b);
    let r = entry_step(eb, a);
    if a.rule == b.rule || ja < n || jb < n {
        assert(l =~= r);
    } else {
        assert(r =~= exchanged(l, n));
    }
}

/// A finding's step keeps two entry lists that differ by an exchange of neighbours differing
/// by the same exchange.
proof fn lemma_step_exchanged(es: Seq<(Seq<char>, int, int)>, p: int, d: DiagnosticModel)
    requires
        distinct_rules(es),
        0 <= p,
        p + 1 < es.len(),
    ensures
        entry_step(exchanged(es, p), d) == exchanged(entry_step(es, d), p),
        entry_step(es, d).len() > p + 1,
{
    let fs = exchanged(es, p);
    lemma_entry_index_props(es, d.rule);
    let j = entry_index(es, d.rule);
    let n = es.len() as int;
    assert forall|a: int, b: int| 0 <= a < b < fs.len() implies #[trigger] fs[a].0 != #[trigger] fs[b].0 by {
        let a2 = if a == p { p + 1 } else if a == p + 1 { p } else { a };
        let b2 = if b == p { p + 1 } else if b == p + 1 { p } else { b };
        assert(fs[a] == es[a2] && fs[b] == es[b2]);
        if a2 < b2 {
            assert(es[a2].0 != es[b2].0);
        } else {
            assert(es[b2].0 != es[a2].0);
        }
    }
    if j < n {
        let k = if j == p { p + 1 } else if j == p + 1 { p } else { j };
        assert(fs[k] == es[j]);
        lemma_index_at(fs, d.rule, k);
        assert(entry_step(fs, d) =~= exchanged(entry_step(es, d), p));
    } else {
        assert forall|i: int| 0 <= i < fs.len() implies #[trigger] fs[i].0 != d.rule by {
            let i2 = if i == p { p + 1 } else if i == p + 1 { p } else { i };
            assert(fs[i] == es[i2]);
        }
        lemma_entry_index(fs, d.rule, n);
        assert(entry_step(fs, d) =~= exchanged(entry_step(es, d), p));
    }
}

/// Exchanging two neighbouring entries keeps the capped total.
proof fn lemma_capped_total_exchanged(es: Seq<(Seq<char>, int, int)>, p: int)
    requires
        0 <= p,
        p + 1 < es.len(),
    ensures
        capped_total(exchanged(es, p)) == capped_total(es),
    decreases es.len(),
{
    let fs = exchanged(es, p);
    assert(fs.len() == es.len());
    if es.len() > p + 2 {
        assert(fs.drop_last() =~= exchanged(es.drop_last(), p));
        assert(fs.last() == es.last());
        lemma_capped_total_exchanged(es.drop_last(), p);
    } else {
        let pre = es.take(p);
        assert(es.drop_last().drop_last() =~= pre);
        assert(fs.drop_last().drop_last() =~= pre);
        assert(es.drop_last().last() == es[p]);
        assert(fs.drop_last().last() == es[p + 1]);
        assert(fs.last() == es[p]);
        assert(es.last() == es[p + 1]);
        assert(capped_total(es.drop_last()) == capped_total(pre) + min_int(es[p].1, es[p].2));
        assert(capped_total(fs.drop_last()) == capped_total(pre) + min_int(es[p + 1].1, es[p + 1].2));
    }
}

/// The entries of the first `n` findings, in the given order and with the findings at `i` and
/// `i + 1` exchanged: the same, or the same with two neighbouring entries exchanged.
proof fn lemma_exchanged_prefix(ds: Seq<DiagnosticModel>, i: int, n: int)
    requires
        0 <= i,
        i + 2 <= n <= ds.len(),
    ensures
        deduction_entries(exchanged(ds, i).take(n)) == deduction_entries(ds.take(n)) || exists|p: int|
            0 <= p && p + 1 < deduction_entries(ds.take(n)).len() && deduction_entries(
                exchanged(ds, i).take(n),
            ) == #[trigger] exchanged(deduction_entries(ds.take(n)), p),
    decreases n,
{
    let es2 = exchanged(ds, i);
    if n == i + 2 {
        let pre = ds.take(i);
        assert(ds.take(n).drop_last().drop_last() =~= pre);
        assert(es2.take(n).drop_last().drop_last() =~= pre);
        assert(ds.take(n).drop_last().last() == ds[i]);
        assert(ds.take(n).last() == ds[i + 1]);
        assert(es2.take(n).drop_last().last() == ds[i + 1]);
        assert(es2.take(n).last() == ds[i]);
        lemma_entries_step(ds.take(n));
        lemma_entries_step(ds.take(n).drop_last());
        lemma_entries_step(es2.take(n));
        lemma_entries_step(es2.take(n).drop_last());
        lemma_entries_distinct(pre);
        lemma_two_steps(deduction_entries(pre), ds[i], ds[i + 1]);
    } else {
        lemma_exchanged_prefix(ds, i, n - 1);
        assert(ds.take(n).drop_last() =~= ds.take(n - 1));
        assert(es2.take(n).drop_last() =~= es2.take(n - 1));
        assert(es2.take(n).last() == ds.take(n).last());
        lemma_entries_step(ds.take(n));
        lemma_entries_step(es2.take(n));
        let e = deduction_entries(ds.take(n - 1));
        lemma_entries_distinct(ds.take(n - 1));
        if deduction_entries(es2.take(n - 1)) != e {
            let p = choose|p: int| 0 <= p && p + 1 < e.len() && deduction_entries(es2.take(n - 1))
                == #[trigger] exchanged(deduction_entries(ds.take(n - 1)), p);
            lemma_step_exchanged(e, p, ds.take(n).last());
            assert(deduction_entries(es2.take(n)) == exchanged(deduction_entries(ds.take(n)), p));
        }
    }
}

/// The score does not depend on the order of the findings: exchanging two neighbouring
/// findings leaves it unchanged, and every order is reached by such exchanges.
pub proof fn law_score_ignores_order(ds: Seq<DiagnosticModel>, i: int)
    requires
        0 <= i,
        i + 1 < ds.len(),
    ensures
        score_hundredths(exchanged(ds, i)) == score_hundredths(ds),
{
    let n = ds.len() as int;
    lemma_exchanged_prefix(ds, i, n);
    assert(ds.take(n) =~= ds);
    assert(exchanged(ds, i).take(n) =~= exchanged(ds, i));
    let e = deduction_entries(ds);
    if deduction_entries(exchanged(ds, i)) != e {
        let p = choose|p: int| 0 <= p && p + 1 < e.len() && deduction_entries(exchanged(ds, i))
            == #[trigger] exchanged(deduction_entries(ds.take(n)), p);
        lemma_capped_total_exchanged(e, p);
    }
}

/// Moving the finding at `i` to a later position `k` keeps the score.
proof fn lemma_move_later(s: Seq<DiagnosticModel>, i: int, k: int)
    requires
        0 <= i <= k < s.len(),
    ensures
        score_hundredths(s.remove(i).insert(k, s[i])) == score_hundredths(s),
    decreases k - i,
{
    if i < k {
        let t = exchanged(s, i);
        law_score_ignores_order(s, i);
        lemma_move_later(t, i + 1, k);
        assert(t[i + 1] == s[i]);
        assert(t.remove(i + 1) =~= s.remove(i));
    } else {
        assert(s.remove(i).insert(i, s[i]) =~= s);
    }
}

/// Two lists of the same findings, each followed by the same further findings, score alike.
proof fn lemma_same_findings_same_score(a: Seq<DiagnosticModel>, b: Seq<DiagnosticModel>, c: Seq<DiagnosticModel>)
    requires
        a.to_multiset() == b.to_multiset(),
    ensures
        score_hundredths(a + c) == score_hundredths(b + c),
    decreases a.len(),
{
    a.to_multiset_ensures();
    b.to_multiset_ensures();
    if a.len() == 0 {
        assert(a =~= b);
    } else {
        let last = b.len() - 1;
        let x = b[last];
        assert(b.contains(x));
        assert(b.to_multiset().count(x) > 0);
        assert(a.to_multiset().count(x) > 0);
        assert(a.contains(x));
        let i = choose|i: int| 0 <= i < a.len() && a[i] == x;
        let s = a + c;
        lemma_move_later(s, i, a.len() - 1);
        assert(s[i] == x);
        assert(s.remove(i).insert(a.len() - 1, x) =~= a.remove(i) + (seq![x] + c));
        assert(b + c =~= b.remove(last) + (seq![x] + c));
        assert(a.remove(i).to_multiset() == b.remove(last).to_multiset());
        lemma_same_findings_same_score(a.remove(i), b.remove(last), seq![x] + c);
    }
}

/// The score does not depend on the order of the findings: two lists that hold the same
/// findings, as often each, score alike.
pub proof fn law_score_ignores_order_of_findings(ds1: Seq<DiagnosticModel>, ds2: Seq<DiagnosticModel>)
    requires
        ds1.to_multiset() == ds2.to_multiset(),
    ensures
        score_hundredths(ds1) == score_hundredths(ds2),
        rounded(score_hundredths(ds1)) == rounded(score_hundredths(ds2)),
        score_label(rounded(score_hundredths(ds1))) == score_label(rounded(score_hundredths(ds2))),
{
    lemma_same_findings_same_score(ds1, ds2, Seq::empty());
    assert(ds1 + Seq::<DiagnosticModel>::empty() =~= ds1);
    assert(ds2 + Seq::<DiagnosticModel>::empty() =~= ds2);
}

/// Every finding's rule has an entry, and every entry is the rule of some finding.
proof fn lemma_entries_cover(ds: Seq<DiagnosticModel>)
    ensures
        forall|i: int| 0 <= i < ds.len() ==> entry_index(deduction_entries(ds), (#[trigger] ds[i]).rule)
            < deduction_entries(ds).len(),
        forall|k: int| 0 <= k < deduction_entries(ds).len() ==> exists|i: int|
            0 <= i < ds.len() && (#[trigger] ds[i]).rule == (#[trigger] deduction_entries(ds)[k]).0,
    decreases ds.len(),
{
    let es2 = deduction_entries(ds);
    if ds.len() > 0 {
        let init = ds.drop_last();
        let x = ds.last();
        lemma_entries_cover(init);
        lemma_entries_distinct(init);
        let es = deduction_entries(init);
        lemma_entries_step(ds);
        lemma_step_keeps_distinct(es, x);
        lemma_entry_index_props(es, x.rule);
        assert forall|i: int| 0 <= i < ds.len() implies entry_index(es2, (#[trigger] ds[i]).rule) < es2.len() by {
            let r = ds[i].rule;
            let a = if i < init.len() {
                assert(ds[i] == init[i]);
                let e = entry_index(es, r);
                lemma_entry_index_props(es, r);
                e
            } else {
                let j = entry_index(es, x.rule);
                if j < es.len() { j } else { es.len() as int }
            };
            assert(0 <= a < es2.len() && es2[a].0 == r);
            lemma_entry_index_props(es2, r);
        }
        assert forall|k: int| 0 <= k < es2.len() implies exists|i: int|
            0 <= i < ds.len() && (#[trigger] ds[i]).rule == (#[trigger] es2[k]).0 by {
            if k < es.len() {
                assert(es2[k].0 == es[k].0);
                let i = choose|i: int| 0 <= i < init.len() && (#[trigger] init[i]).rule == es[k].0;
                assert(ds[i] == init[i]);
            } else {
                assert(ds[ds.len() - 1] == x);
            }
        }
    } else {
        assert(es2 =~= Seq::empty());
    }
}

/// The score of findings that all come from one rule with one severity and one category: each
/// deducts 2 points for an error or 0.4 for a warning, and information nothing, times the
/// category's weight (security and correctness 1.5, performance 1.2, schema, configuration and
/// client side 1, architecture 0.8), and the rule deducts at most 4 points for errors or 1.5
/// for warnings, times that weight. In hundredths of a point.
pub proof fn law_one_rule_score(ds: Seq<DiagnosticModel>, d: DiagnosticModel)
    requires
        ds.len() > 0,
        forall|i: int|
            0 <= i < ds.len() ==> (#[trigger] ds[i]).rule == d.rule && ds[i].severity == d.severity
                && ds[i].category == d.category,
    ensures
        ({
            let weight: int = match d.category {
                Category::Security => 15,
                Category::Correctness => 15,
                Category::Performance => 12,
                Category::Schema => 10,
                Category::Configuration => 10,
                Category::ClientSide => 10,
                Category::Architecture => 8,
            };
            let each: int = match d.severity {
                Severity::Error => 20 * weight,
                Severity::Warning => 4 * weight,
                Severity::Info => 0,
            };
            let cap: int = match d.severity {
                Severity::Error => 40 * weight,
                Severity::Warning => 15 * weight,
                Severity::Info => 0,
            };
            score_hundredths(ds) == if ds.len() * each <= cap {
                10000 - ds.len() * each
            } else {
                10000 - cap
            }
        }),
{
    let es = deduction_entries(ds);
    assert(uniform_rule(ds, d));
    law_uniform_rule_deduction(ds, d);
    lemma_rule_count_all(ds, d.rule);
    lemma_entries_distinct(ds);
    lemma_entries_cover(ds);
    assert(ds[0].rule == d.rule);
    let j = entry_index(es, d.rule);
    if es.len() >= 2 {
        assert(es[0].0 != es[1].0);
        let i0 = choose|i: int| 0 <= i < ds.len() && (#[trigger] ds[i]).rule == es[0].0;
        let i1 = choose|i: int| 0 <= i < ds.len() && (#[trigger] ds[i]).rule == es[1].0;
        assert(false);
    }
    assert(es.len() == 1);
    assert(j == 0);
    assert(es.drop_last() =~= Seq::<(Seq<char>, int, int)>::empty());
    assert(es.last() == es[0]);
    assert(capped_total(es.drop_last()) == 0);
    assert(capped_total(es) == min_int(es[0].1, es[0].2));
    assert(rule_cap(d) <= 600);
    assert(per_instance(d) >= 0);
}

/// Findings that all come from `rule` number as many as there are.
proof fn lemma_rule_count_all(ds: Seq<DiagnosticModel>, rule: Seq<char>)
    requires
        forall|i: int| 0 <= i < ds.len() ==> (#[trigger] ds[i]).rule == rule,
    ensures
        rule_count(ds, rule) == ds.len(),
    decreases ds.len(),
{
    if ds.len() > 0 {
        assert forall|i: int| 0 <= i < ds.drop_last().len() implies (#[trigger] ds.drop_last()[i]).rule == rule by {
            assert(ds.drop_last()[i] == ds[i]);
        }
        lemma_rule_count_all(ds.drop_last(), rule);
        assert(ds.last() == ds[ds.len() - 1]);
    }
}

/// Every rule of the findings has a single severity and category.
pub open spec fn uniform_findings(ds: Seq<DiagnosticModel>) -> bool {
    forall|i: int, j: int|
        0 <= i < ds.len() && 0 <= j < ds.len() && (#[trigger] ds[i]).rule == (#[trigger] ds[j]).rule
            ==> ds[i].severity == ds[j].severity && ds[i].category == ds[j].category
}

/// The closed form of the score, where every rule has a single severity and category: one
/// entry per distinct rule of the findings, and each rule deducts its number of findings times
/// the amount of one, held to the cap of one; the score is 100 less the sum, kept within 0
/// and 100.
pub proof fn law_score_closed_form(ds: Seq<DiagnosticModel>)
    requires
        uniform_findings(ds),
    ensures
        forall|a: int, b: int|
            0 <= a < b < deduction_entries(ds).len() ==> (#[trigger] deduction_entries(ds)[a]).0
                != (#[trigger] deduction_entries(ds)[b]).0,
        forall|k: int| 0 <= k < deduction_entries(ds).len() ==> exists|i: int|
            0 <= i < ds.len() && (#[trigger] ds[i]).rule == (#[trigger] deduction_entries(ds)[k]).0,
        forall|i: int| 0 <= i < ds.len() ==> exists|k: int|
            0 <= k < deduction_entries(ds).len() && (#[trigger] deduction_entries(ds)[k]).0 == (#[trigger] ds[i]).rule,
        forall|k: int, i: int|
            0 <= k < deduction_entries(ds).len() && 0 <= i < ds.len() && (#[trigger] ds[i]).rule
                == (#[trigger] deduction_entries(ds)[k]).0 ==> min_int(deduction_entries(ds)[k].1, deduction_entries(ds)[k].2)
                == min_int(rule_count(ds, ds[i].rule) * per_instance(ds[i]), rule_cap(ds[i])),
        score_hundredths(ds) == 10000 - min_int(capped_total(deduction_entries(ds)), 10000),
{
    let es = deduction_entries(ds);
    lemma_entries_distinct(ds);
    lemma_entries_cover(ds);
    assert forall|i: int| 0 <= i < ds.len() implies exists|k: int|
        0 <= k < es.len() && (#[trigger] es[k]).0 == (#[trigger] ds[i]).rule by {
        lemma_entry_index_props(es, ds[i].rule);
        let k = entry_index(es, ds[i].rule);
        assert(es[k].0 == ds[i].rule);
    }
    assert forall|k: int, i: int|
        0 <= k < es.len() && 0 <= i < ds.len() && (#[trigger] ds[i]).rule == (#[trigger] es[k]).0 implies min_int(es[k].1, es[k].2)
            == min_int(rule_count(ds, ds[i].rule) * per_instance(ds[i]), rule_cap(ds[i])) by {
        let d = ds[i];
        assert(uniform_rule(ds, d)) by {
            assert forall|t: int| 0 <= t < ds.len() && (#[trigger] ds[t]).rule == d.rule implies ds[t].severity
                == d.severity && ds[t].category == d.category by {
                assert(ds[t].rule == ds[i].rule);
            }
        }
        law_uniform_rule_deduction(ds, d);
        lemma_entry_index_props(es, d.rule);
        lemma_index_entry(es, d.rule, k);
    }
}

/// In entries with distinct rules, the entry index of an entry's rule is that entry.
proof fn lemma_index_entry(es: Seq<(Seq<char>, int, int)>, rule: Seq<char>, k: int)
    requires
        distinct_rules(es),
        0 <= k < es.len(),
        es[k].0 == rule,
    ensures
        entry_index(es, rule) == k,
{
    assert forall|i: int| 0 <= i < k implies #[trigger] es[i].0 != rule by {
        assert(es[i].0 != es[k].0);
    }
    lemma_entry_index(es, rule, k);
}

} // verus!
