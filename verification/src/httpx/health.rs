//! Liveness and readiness tracking.
use vstd::prelude::*;
use crate::strmap::StrMap;

verus! {

/// What a readiness check's outcome reads as in a report: `"ok"` for success,
/// the reason for a failure.
pub open spec fn check_report(out: Result<(), String>) -> Seq<char> {
    match out {
        Ok(()) => "ok"@,
        Err(reason) => reason@,
    }
}

/// Tracks readiness. Readiness ("can I serve traffic?") runs every registered
/// check and also honours an explicit ready flag that the server sets during
/// startup and clears at the start of shutdown. Each check returns `Ok(())`
/// when the dependency it guards is healthy, or `Err(reason)` when it is not.
pub struct Health<F> {
    ready: bool,
    checks: StrMap<F>,
}

impl<F> Health<F> {
    #[verifier::type_invariant]
    spec fn inv(&self) -> bool {
        self.checks.wf()
    }
}

impl<F: Fn() -> Result<(), String>> Health<F> {
    /// Whether the readiness gate is open.
    pub closed spec fn gate(&self) -> bool {
        self.ready
    }

    /// The registered checks, by name.
    pub closed spec fn registry(&self) -> Map<Seq<char>, F> {
        self.checks@
    }

    /// An empty registry with the readiness gate closed.
    pub fn new() -> (h: Self)
        ensures
            !h.gate(),
            h.registry() == Map::<Seq<char>, F>::empty(),
    {
        Health { ready: false, checks: StrMap::new() }
    }

    /// Add (or replace) the check registered under `name`.
    pub fn register(&mut self, name: &str, check: F)
        ensures
            final(self).registry() == old(self).registry().insert(name@, check),
            final(self).gate() == old(self).gate(),
    {
        proof {
            use_type_invariant(&*self);
        }
        let mut checks = StrMap::new();
        std::mem::swap(&mut checks, &mut self.checks);
        checks.insert(String::from_str(name), check);
        self.checks = checks;
    }

    /// Open or close the readiness gate.
    pub fn set_ready(&mut self, ready: bool)
        ensures
            final(self).gate() == ready,
            final(self).registry() == old(self).registry(),
    {
        proof {
            use_type_invariant(&*self);
        }
        self.ready = ready;
    }

    /// Whether the readiness gate is currently open.
    pub fn is_ready(&self) -> (r: bool)
        ensures
            r == self.gate(),
    {
        self.ready
    }

    /// Run every registered check once, in name order. Returns whether all of
    /// them succeeded and, for each check's name, its report (`"ok"` or the
    /// failure reason).
    pub fn run_checks(&self) -> (res: (bool, StrMap<String>))
        requires
            forall|k: Seq<char>|
                #[trigger] self.registry().contains_key(k) ==> call_requires(
                    self.registry()[k],
                    (),
                ),
        ensures
            res.1.wf(),
            res.1@.dom() == self.registry().dom(),
            exists|outs: Map<Seq<char>, Result<(), String>>|
                {
                    &&& outs.dom() == self.registry().dom()
                    &&& forall|k: Seq<char>|
                        #[trigger] outs.contains_key(k) ==> call_ensures(
                            self.registry()[k],
                            (),
                            outs[k],
                        ) && res.1@[k]@ == check_report(outs[k])
                    &&& res.0 <==> forall|k: Seq<char>| #[trigger] outs.contains_key(k) ==> outs[k] is Ok
                },
    {
        proof {
            use_type_invariant(self);
            self.checks.lemma_pairs();
            reveal_strlit("ok");
        }
        let n = self.checks.len();
        let mut all_ok = true;
        let mut results: StrMap<String> = StrMap::new();
        let ghost mut outs: Map<Seq<char>, Result<(), String>> = Map::empty();
        let ghost pairs = self.checks.pairs();
        let mut i: usize = 0;
        while i < n
            invariant
                n == pairs.len(),
                pairs == self.checks.pairs(),
                self.checks.wf(),
                i <= n,
                results.wf(),
                forall|j: int|
                    0 <= j < pairs.len() ==> self.checks@.contains_key(#[trigger] pairs[j].0)
                        && self.checks@[pairs[j].0] == pairs[j].1,
                forall|k: Seq<char>|
                    #[trigger] self.registry().contains_key(k) ==> call_requires(self.registry()[k], ()),
                self.registry() == self.checks@,
                outs.dom() == results@.dom(),
                forall|k: Seq<char>|
                    #[trigger] outs.contains_key(k) <==> exists|j: int|
                        0 <= j < i && #[trigger] pairs[j].0 == k,
                forall|k: Seq<char>|
                    #[trigger] outs.contains_key(k) ==> call_ensures(self.checks@[k], (), outs[k])
                        && results@[k]@ == check_report(outs[k]),
                all_ok <==> forall|k: Seq<char>| #[trigger] outs.contains_key(k) ==> outs[k] is Ok,
            decreases n - i,
        {
            let name = self.checks.key_at(i);
            let check = self.checks.value_at(i);
            proof {
                assert(self.checks@.contains_key(pairs[i as int].0));
            }
            let out = check();
            let ghost k = name@;
            match &out {
                Ok(()) => {
                    results.insert(name.clone(), String::from_str("ok"));
                },
                Err(reason) => {
                    all_ok = false;
                    results.insert(name.clone(), reason.clone());
                },
            }
            proof {
                let old_outs = outs;
                if old_outs.contains_key(k) {
                    let j = choose|j: int| 0 <= j < i && #[trigger] pairs[j].0 == k;
                    assert(crate::text::lex_lt(crate::strmap::keys_of(pairs)[j], crate::strmap::keys_of(pairs)[i as int]));
                    crate::text::lemma_lex_irreflexive(k);
                }
                assert(!old_outs.contains_key(k));
                outs = outs.insert(k, out);
                assert(all_ok <==> forall|key: Seq<char>| #[trigger] outs.contains_key(key) ==> outs[key] is Ok) by {
                    if all_ok {
                        assert(out is Ok);
                        assert forall|key: Seq<char>| #[trigger] outs.contains_key(key) implies outs[key] is Ok by {
                            if key != k {
                                assert(old_outs.contains_key(key));
                            }
                        }
                    } else {
                        if out is Ok {
                            let key = choose|key: Seq<char>| #[trigger] old_outs.contains_key(key) && !(old_outs[key] is Ok);
                            assert(outs.contains_key(key) && !(outs[key] is Ok));
                        } else {
                            assert(outs.contains_key(k) && !(outs[k] is Ok));
                        }
                    }
                }
                assert forall|key: Seq<char>| #[trigger] outs.contains_key(key) <==> exists|j: int|
                    0 <= j < i + 1 && #[trigger] pairs[j].0 == key by {
                    if key == k {
                        assert(pairs[i as int].0 == key);
                    } else if old_outs.contains_key(key) {
                        let j = choose|j: int| 0 <= j < i && #[trigger] pairs[j].0 == key;
                        assert(0 <= j < i + 1 && pairs[j].0 == key);
                    } else {
                        if exists|j: int| 0 <= j < i + 1 && #[trigger] pairs[j].0 == key {
                            let j = choose|j: int| 0 <= j < i + 1 && #[trigger] pairs[j].0 == key;
                            assert(j == i);
                        }
                    }
                }
                assert(outs.dom() =~= results@.dom());
            }
            i = i + 1;
        }
        proof {
            assert(results@.dom() =~= self.checks@.dom()) by {
                assert forall|k: Seq<char>| results@.dom().contains(k) <==> self.checks@.dom().contains(k) by {
                    if self.checks@.contains_key(k) {
                        let j = choose|j: int| 0 <= j < pairs.len() && #[trigger] pairs[j].0 == k;
                        assert(outs.contains_key(k));
                    }
                    if outs.contains_key(k) {
                        let j = choose|j: int| 0 <= j < n && #[trigger] pairs[j].0 == k;
                    }
                }
            }
        }
        (all_ok, results)
    }
}

/// The answer to a readiness probe: an HTTP status, a status label and, when
/// the checks ran, each check's report.
pub struct ReadyReport {
    pub status: u16,
    pub label: String,
    pub checks: Option<StrMap<String>>,
}

/// The ready flag after a sequence of calls on a fresh registry, where
/// `Some(b)` stands for `set_ready(b)` and `None` for a `register`: the
/// argument of the latest `set_ready`, or `false` when there was none.
pub open spec fn ready_after(calls: Seq<Option<bool>>) -> bool
    decreases calls.len(),
{
    if calls.len() == 0 {
        false
    } else {
        match calls.last() {
            Some(b) => b,
            None => ready_after(calls.drop_last()),
        }
    }
}

/// `is_ready` answers the argument of the latest `set_ready` (`false` if
/// there was none): for registries `hs[0]` (fresh, as `new` makes it) to
/// `hs[n]`, where each `hs[i + 1]` comes from `hs[i]` by the call `calls[i]`
/// as the contracts of `set_ready` and `register` state, the ready flag of
/// the last one is `ready_after(calls)`.
pub proof fn lemma_ready_is_latest_set<F: Fn() -> Result<(), String>>(
    hs: Seq<Health<F>>,
    calls: Seq<Option<bool>>,
)
    requires
        hs.len() == calls.len() + 1,
        !hs[0].gate(),
        forall|i: int|
            0 <= i < calls.len() ==> match #[trigger] calls[i] {
                Some(b) => hs[i + 1].gate() == b,
                None => hs[i + 1].gate() == hs[i].gate(),
            },
    ensures
        hs.last().gate() == ready_after(calls),
    decreases calls.len(),
{
    if calls.len() > 0 {
        let n = calls.len() - 1;
        lemma_ready_is_latest_set(hs.drop_last(), calls.drop_last());
        assert(calls[n] == calls.last());
        assert(hs.drop_last().last() == hs[n]);
    }
}

/// The reply to a readiness probe: `not_ready` (503) while the ready flag is
/// cleared; once it is set, `ready` (200) when every check succeeds, else
/// `degraded` (503), with each check's report.
pub fn readiness_report<F: Fn() -> Result<(), String>>(health: &Health<F>) -> (r: ReadyReport)
    requires
        forall|k: Seq<char>|
            #[trigger] health.registry().contains_key(k) ==> call_requires(
                health.registry()[k],
                (),
            ),
    ensures
        !health.gate() ==> r.status == 503 && r.label@ == "not_ready"@ && r.checks is None,
        health.gate() ==> r.checks is Some && r.checks->0.wf() && r.checks->0@.dom()
            == health.registry().dom() && exists|outs: Map<Seq<char>, Result<(), String>>|
            {
                &&& outs.dom() == health.registry().dom()
                &&& forall|k: Seq<char>|
                    #[trigger] outs.contains_key(k) ==> call_ensures(
                        health.registry()[k],
                        (),
                        outs[k],
                    ) && r.checks->0@[k]@ == check_report(outs[k])
                &&& (forall|k: Seq<char>| #[trigger] outs.contains_key(k) ==> outs[k] is Ok) ==> (
                r.status == 200 && r.label@ == "ready"@)
                &&& !(forall|k: Seq<char>| #[trigger] outs.contains_key(k) ==> outs[k] is Ok) ==> (
                r.status == 503 && r.label@ == "degraded"@)
            },
{
    if !health.is_ready() {
        return ReadyReport { status: 503, label: String::from_str("not_ready"), checks: None };
    }
    let (ok, checks) = health.run_checks();
    if ok {
        ReadyReport { status: 200, label: String::from_str("ready"), checks: Some(checks) }
    } else {
        ReadyReport { status: 503, label: String::from_str("degraded"), checks: Some(checks) }
    }
}

} // verus!
