//! Course progress: the lessons of a language grouped by module and counted
//! by status.

use vstd::prelude::*;

use crate::text::{lemma_lex_irreflexive, lemma_lex_total, lemma_lex_transitive, lex_lt, str_equals, str_less};

verus! {

/// The lesson counts of one module.
#[derive(Debug, Clone)]
pub struct ModuleCounts {
    pub module_id: String,
    pub total_lessons: usize,
    pub completed_lessons: usize,
    pub in_progress_lessons: usize,
    pub not_started_lessons: usize,
}

/// The lesson counts of a course, module by module in order of module id.
#[derive(Debug, Clone)]
pub struct CourseCounts {
    pub total_modules: usize,
    pub total_lessons: usize,
    pub completed_lessons: usize,
    pub modules: Vec<ModuleCounts>,
}

/// The (module id, status) pairs of a course's lessons.
pub open spec fn lessons_view(lessons: Seq<(String, String)>) -> Seq<(Seq<char>, Seq<char>)> {
    lessons.map_values(|p: (String, String)| (p.0@, p.1@))
}

/// How many lessons of module `module` there are, of status `status` when
/// one is given.
pub open spec fn count_lessons(
    ls: Seq<(Seq<char>, Seq<char>)>,
    module: Option<Seq<char>>,
    status: Option<Seq<char>>,
) -> nat
    decreases ls.len(),
{
    if ls.len() == 0 {
        0
    } else {
        let last = ls.last();
        let hit = (match module {
            Some(m) => last.0 == m,
            None => true,
        }) && (match status {
            Some(s) => last.1 == s,
            None => true,
        });
        count_lessons(ls.drop_last(), module, status) + (if hit {
            1nat
        } else {
            0nat
        })
    }
}

/// Module ids in strictly increasing order.
pub open spec fn strictly_ascending(ids: Seq<Seq<char>>) -> bool {
    forall|i: int, j: int| 0 <= i < j < ids.len() ==> lex_lt(#[trigger] ids[i], #[trigger] ids[j])
}

/// Whether some lesson belongs to module `m`.
pub open spec fn has_module(ls: Seq<(Seq<char>, Seq<char>)>, m: Seq<char>) -> bool {
    exists|i: int| 0 <= i < ls.len() && (#[trigger] ls[i]).0 == m
}

/// What the counts of module `m` are.
pub open spec fn module_counted(c: ModuleCounts, ls: Seq<(Seq<char>, Seq<char>)>) -> bool {
    let m = c.module_id@;
    &&& c.total_lessons == count_lessons(ls, Some(m), None)
    &&& c.completed_lessons == count_lessons(ls, Some(m), Some("completed"@))
    &&& c.in_progress_lessons == count_lessons(ls, Some(m), Some("in_progress"@))
    &&& c.not_started_lessons == count_lessons(ls, Some(m), Some("not_started"@))
}

proof fn lemma_count_bound(ls: Seq<(Seq<char>, Seq<char>)>, module: Option<Seq<char>>, status: Option<Seq<char>>)
    ensures
        count_lessons(ls, module, status) <= ls.len(),
    decreases ls.len(),
{
    if ls.len() > 0 {
        lemma_count_bound(ls.drop_last(), module, status);
    }
}

/// Counts the lessons of module `module` (of status `status` when given).
fn count_of(lessons: &[(String, String)], module: &str, status: Option<&str>) -> (n: usize)
    ensures
        n == count_lessons(
            lessons_view(lessons@),
            Some(module@),
            match status {
                Some(s) => Some(s@),
                None => None,
            },
        ),
{
    let ghost ls = lessons_view(lessons@);
    let ghost st = match status {
        Some(s) => Some(s@),
        None => None::<Seq<char>>,
    };
    let mut n: usize = 0;
    let mut j: usize = 0;
    while j < lessons.len()
        invariant
            j <= lessons@.len(),
            ls == lessons_view(lessons@),
            st == (match status {
                Some(s) => Some(s@),
                None => None::<Seq<char>>,
            }),
            n == count_lessons(ls.take(j as int), Some(module@), st),
        decreases lessons.len() - j,
    {
        proof {
            assert(ls.take(j as int + 1).drop_last() =~= ls.take(j as int));
            lemma_count_bound(ls.take(j as int), Some(module@), st);
        }
        let hit = str_equals(lessons[j].0.as_str(), module) && match status {
            Some(s) => str_equals(lessons[j].1.as_str(), s),
            None => true,
        };
        if hit {
            n = n + 1;
        }
        j = j + 1;
    }
    assert(ls.take(lessons@.len() as int) =~= ls);
    n
}

/// Counts every lesson of status `status`.
fn count_status(lessons: &[(String, String)], status: &str) -> (n: usize)
    ensures
        n == count_lessons(lessons_view(lessons@), None, Some(status@)),
{
    let ghost ls = lessons_view(lessons@);
    let mut n: usize = 0;
    let mut j: usize = 0;
    while j < lessons.len()
        invariant
            j <= lessons@.len(),
            ls == lessons_view(lessons@),
            n == count_lessons(ls.take(j as int), None, Some(status@)),
        decreases lessons.len() - j,
    {
        proof {
            assert(ls.take(j as int + 1).drop_last() =~= ls.take(j as int));
            lemma_count_bound(ls.take(j as int), None, Some(status@));
        }
        if str_equals(lessons[j].1.as_str(), status) {
            n = n + 1;
        }
        j = j + 1;
    }
    assert(ls.take(lessons@.len() as int) =~= ls);
    n
}

proof fn lemma_has_module_step(ls: Seq<(Seq<char>, Seq<char>)>, i: int, m: Seq<char>)
    requires
        0 <= i < ls.len(),
    ensures
        has_module(ls.take(i + 1), m) <==> (has_module(ls.take(i), m) || ls[i].0 == m),
{
    if has_module(ls.take(i + 1), m) {
        let w = choose|t: int| 0 <= t < i + 1 && (#[trigger] ls.take(i + 1)[t]).0 == m;
        if w < i {
            assert(ls.take(i)[w] == ls.take(i + 1)[w]);
        }
    }
    if has_module(ls.take(i), m) {
        let u = choose|t: int| 0 <= t < i && (#[trigger] ls.take(i)[t]).0 == m;
        assert(ls.take(i + 1)[u] == ls.take(i)[u]);
    }
    if ls[i].0 == m {
        assert(ls.take(i + 1)[i] == ls[i]);
    }
}

/// The module ids of the lessons, each once, in ascending order.
fn module_ids(lessons: &[(String, String)]) -> (ids: Vec<String>)
    ensures
        strictly_ascending(ids@.map_values(|s: String| s@)),
        forall|m: Seq<char>|
            ids@.map_values(|s: String| s@).contains(m) <==> has_module(lessons_view(lessons@), m),
{
    let ghost ls = lessons_view(lessons@);
    let mut ids: Vec<String> = Vec::new();
    let mut i: usize = 0;
    while i < lessons.len()
        invariant
            i <= lessons@.len(),
            ls == lessons_view(lessons@),
            strictly_ascending(ids@.map_values(|s: String| s@)),
            forall|m: Seq<char>|
                ids@.map_values(|s: String| s@).contains(m) <==> has_module(ls.take(i as int), m),
        decreases lessons.len() - i,
    {
        let ghost old_ids = ids@.map_values(|s: String| s@);
        let x = &lessons[i].0;
        let mut k: usize = 0;
        while k < ids.len() && str_less(ids[k].as_str(), x.as_str())
            invariant
                k <= ids@.len(),
                old_ids == ids@.map_values(|s: String| s@),
                forall|t: int| 0 <= t < k ==> lex_lt(#[trigger] old_ids[t], x@),
            decreases ids.len() - k,
        {
            k = k + 1;
        }
        let ghost v = ids@.map_values(|s: String| s@);
        assert(v == old_ids);
        if k < ids.len() && str_equals(ids[k].as_str(), x.as_str()) {
            proof {
                assert(ls[i as int].0 == x@);
                assert forall|m: Seq<char>|
                    v.contains(m) <==> has_module(ls.take(i as int + 1), m) by {
                    lemma_has_module_step(ls, i as int, m);
                    if m == x@ {
                        assert(v[k as int] == m);
                    }
                }
            }
        } else {
            proof {
                if k < v.len() {
                    lemma_lex_total(v[k as int], x@);
                    assert(lex_lt(x@, v[k as int]));
                }
            }
            ids.insert(k, x.clone());
            let ghost nv = ids@.map_values(|s: String| s@);
            proof {
                assert(nv =~= v.insert(k as int, x@));
                assert forall|a: int, b: int| 0 <= a < b < nv.len() implies lex_lt(
                    #[trigger] nv[a],
                    #[trigger] nv[b],
                ) by {
                    if b < k {
                        assert(nv[a] == v[a] && nv[b] == v[b]);
                    } else if b == k {
                        assert(nv[a] == v[a]);
                    } else if a < k {
                        assert(nv[a] == v[a] && nv[b] == v[b - 1]);
                        if b - 1 > k {
                            assert(lex_lt(v[k as int], v[b - 1]));
                            lemma_lex_transitive(x@, v[k as int], v[b - 1]);
                        }
                        lemma_lex_transitive(v[a], x@, v[b - 1]);
                    } else if a == k {
                        assert(nv[b] == v[b - 1]);
                        if b - 1 > k {
                            assert(lex_lt(v[k as int], v[b - 1]));
                            lemma_lex_transitive(x@, v[k as int], v[b - 1]);
                        }
                    } else {
                        assert(nv[a] == v[a - 1] && nv[b] == v[b - 1]);
                    }
                }
                assert(ls[i as int].0 == x@);
                assert forall|m: Seq<char>|
                    nv.contains(m) <==> has_module(ls.take(i as int + 1), m) by {
                    lemma_has_module_step(ls, i as int, m);
                    if m == x@ {
                        assert(nv[k as int] == m);
                    }
                    if v.contains(m) {
                        let z = choose|t: int| 0 <= t < v.len() && v[t] == m;
                        if z < k {
                            assert(nv[z] == m);
                        } else {
                            assert(nv[z + 1] == m);
                        }
                    }
                    if nv.contains(m) {
                        let z = choose|t: int| 0 <= t < nv.len() && nv[t] == m;
                        if z < k {
                            assert(v[z] == m);
                        } else if z > k {
                            assert(v[z - 1] == m);
                        }
                    }
                }
            }
        }
        i = i + 1;
    }
    assert(ls.take(lessons@.len() as int) =~= ls);
    ids
}

/// Groups the lessons of a course, given as (module id, status) pairs, by
/// module, in ascending order of module id, counts each module's lessons by
/// status (`completed`, `in_progress`, `not_started`), and totals the
/// course.
pub fn course_counts(lessons: &[(String, String)]) -> (r: CourseCounts)
    ensures
        r.total_lessons == lessons@.len(),
        r.completed_lessons == count_lessons(lessons_view(lessons@), None, Some("completed"@)),
        r.total_modules == r.modules@.len(),
        strictly_ascending(r.modules@.map_values(|c: ModuleCounts| c.module_id@)),
        forall|m: Seq<char>|
            r.modules@.map_values(|c: ModuleCounts| c.module_id@).contains(m) <==> has_module(
                lessons_view(lessons@),
                m,
            ),
        forall|j: int|
            0 <= j < r.modules@.len() ==> module_counted(
                #[trigger] r.modules@[j],
                lessons_view(lessons@),
            ),
{
    let ids = module_ids(lessons);
    let ghost idv = ids@.map_values(|s: String| s@);
    let mut modules: Vec<ModuleCounts> = Vec::new();
    let mut j: usize = 0;
    while j < ids.len()
        invariant
            j <= ids@.len(),
            idv == ids@.map_values(|s: String| s@),
            modules@.len() == j,
            forall|t: int| 0 <= t < j ==> (#[trigger] modules@[t]).module_id@ == idv[t],
            forall|t: int| 0 <= t < j ==> module_counted(#[trigger] modules@[t], lessons_view(lessons@)),
        decreases ids.len() - j,
    {
        let m = ids[j].as_str();
        let c = ModuleCounts {
            module_id: ids[j].clone(),
            total_lessons: count_of(lessons, m, None),
            completed_lessons: count_of(lessons, m, Some("completed")),
            in_progress_lessons: count_of(lessons, m, Some("in_progress")),
            not_started_lessons: count_of(lessons, m, Some("not_started")),
        };
        modules.push(c);
        j = j + 1;
    }
    let ghost mv = modules@.map_values(|c: ModuleCounts| c.module_id@);
    assert(mv =~= idv);
    proof {
        let ls = lessons_view(lessons@);
        assert(ls.len() == lessons@.len());
    }
    CourseCounts {
        total_modules: modules.len(),
        total_lessons: lessons.len(),
        completed_lessons: count_status(lessons, "completed"),
        modules,
    }
}

/// The lessons of status `status` (all, when none is given) counted module
/// by module over `ids`, and added up.
pub open spec fn sum_over_modules(
    ls: Seq<(Seq<char>, Seq<char>)>,
    ids: Seq<Seq<char>>,
    status: Option<Seq<char>>,
) -> nat
    decreases ids.len(),
{
    if ids.len() == 0 {
        0
    } else {
        sum_over_modules(ls, ids.drop_last(), status) + count_lessons(ls, Some(ids.last()), status)
    }
}

/// How many of `ids` equal `x`.
spec fn occurrences(ids: Seq<Seq<char>>, x: Seq<char>) -> nat
    decreases ids.len(),
{
    if ids.len() == 0 {
        0
    } else {
        occurrences(ids.drop_last(), x) + (if ids.last() == x {
            1nat
        } else {
            0nat
        })
    }
}

proof fn lemma_occurs_once(ids: Seq<Seq<char>>, x: Seq<char>)
    requires
        strictly_ascending(ids),
        ids.contains(x),
    ensures
        occurrences(ids, x) == 1,
    decreases ids.len(),
{
    let init = ids.drop_last();
    assert(strictly_ascending(init)) by {
        assert forall|i: int, j: int| 0 <= i < j < init.len() implies lex_lt(
            #[trigger] init[i],
            #[trigger] init[j],
        ) by {
            assert(init[i] == ids[i] && init[j] == ids[j]);
        }
    }
    if ids.last() == x {
        assert(!init.contains(x)) by {
            if init.contains(x) {
                let t = choose|t: int| 0 <= t < init.len() && init[t] == x;
                assert(lex_lt(ids[t], ids[ids.len() - 1]));
                lemma_lex_irreflexive(x);
            }
        }
        lemma_occurs_never(init, x);
    } else {
        let t = choose|t: int| 0 <= t < ids.len() && ids[t] == x;
        assert(init[t] == x);
        lemma_occurs_once(init, x);
    }
}

proof fn lemma_occurs_never(ids: Seq<Seq<char>>, x: Seq<char>)
    requires
        !ids.contains(x),
    ensures
        occurrences(ids, x) == 0,
    decreases ids.len(),
{
    if ids.len() > 0 {
        let init = ids.drop_last();
        assert(!init.contains(x)) by {
            if init.contains(x) {
                let t = choose|t: int| 0 <= t < init.len() && init[t] == x;
                assert(ids[t] == x);
            }
        }
        assert(ids[ids.len() - 1] == ids.last());
        lemma_occurs_never(init, x);
    }
}

/// Adding one lesson at the end adds to the sum exactly as many times as
/// its module occurs among the ids.
proof fn lemma_sum_step(
    ls: Seq<(Seq<char>, Seq<char>)>,
    ids: Seq<Seq<char>>,
    status: Option<Seq<char>>,
)
    requires
        ls.len() > 0,
    ensures
        sum_over_modules(ls, ids, status) == sum_over_modules(ls.drop_last(), ids, status) + (if (
        match status {
            Some(s) => ls.last().1 == s,
            None => true,
        }) {
            occurrences(ids, ls.last().0)
        } else {
            0nat
        }),
    decreases ids.len(),
{
    if ids.len() > 0 {
        lemma_sum_step(ls, ids.drop_last(), status);
    }
}

/// A course's totals are the sums of its modules' counts: over the module
/// ids of the lessons, each once in ascending order, the lessons of every
/// module add up to all lessons, and its completed lessons to all
/// completed lessons.
pub proof fn module_counts_add_up(
    ls: Seq<(Seq<char>, Seq<char>)>,
    ids: Seq<Seq<char>>,
    status: Option<Seq<char>>,
)
    requires
        strictly_ascending(ids),
        forall|m: Seq<char>| ids.contains(m) <==> has_module(ls, m),
    ensures
        sum_over_modules(ls, ids, status) == count_lessons(ls, None, status),
        sum_over_modules(ls, ids, None) == ls.len(),
{
    lemma_sum_covered(ls, ids, status);
    lemma_sum_covered(ls, ids, None);
    lemma_count_all(ls);
}

proof fn lemma_count_all(ls: Seq<(Seq<char>, Seq<char>)>)
    ensures
        count_lessons(ls, None, None) == ls.len(),
    decreases ls.len(),
{
    if ls.len() > 0 {
        lemma_count_all(ls.drop_last());
    }
}

proof fn lemma_sum_covered(
    ls: Seq<(Seq<char>, Seq<char>)>,
    ids: Seq<Seq<char>>,
    status: Option<Seq<char>>,
)
    requires
        strictly_ascending(ids),
        forall|i: int| 0 <= i < ls.len() ==> ids.contains(#[trigger] ls[i].0),
    ensures
        sum_over_modules(ls, ids, status) == count_lessons(ls, None, status),
    decreases ls.len(),
{
    if ls.len() == 0 {
        lemma_sum_empty(ls, ids, status);
    } else {
        let init = ls.drop_last();
        assert forall|i: int| 0 <= i < init.len() implies ids.contains(#[trigger] init[i].0) by {
            assert(init[i] == ls[i]);
        }
        lemma_sum_covered(init, ids, status);
        lemma_sum_step(ls, ids, status);
        assert(ls[ls.len() - 1] == ls.last());
        lemma_occurs_once(ids, ls.last().0);
    }
}

proof fn lemma_sum_empty(ls: Seq<(Seq<char>, Seq<char>)>, ids: Seq<Seq<char>>, status: Option<Seq<char>>)
    requires
        ls.len() == 0,
    ensures
        sum_over_modules(ls, ids, status) == 0,
    decreases ids.len(),
{
    if ids.len() > 0 {
        lemma_sum_empty(ls, ids.drop_last(), status);
    }
}

} // verus!
