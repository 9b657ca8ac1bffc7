use vstd::prelude::*;

verus! {

/// What attach returns when every batch was registered.
pub const ATTACH_VERSION: i32 = 0x00010006;

/// What attach returns when any step failed.
pub const ATTACH_FAILED: i32 = -1;

/// The next thing that the runtime-binding layer must do.
#[derive(Clone, Copy, Debug, PartialEq, Eq, Structural)]
pub enum AttachAction {
    /// Resolve the class of batch `batch`.
    ResolveClass { batch: usize },
    /// Register descriptor `index` of batch `batch` against its class.
    Register { batch: usize, index: usize },
    /// Stop and return `code` to the runtime.
    Finish { code: i32 },
}

/// How far attach has come.
#[derive(Clone, Copy, Debug, PartialEq, Eq, Structural)]
pub enum AttachPhase {
    Resolving { batch: usize },
    Registering { batch: usize, index: usize },
    Registered,
    Failed,
}

/// Attach over a fixed list of batches, one per class, given by their
/// descriptor counts. Every class is resolved first, in batch order; only
/// then are the descriptors registered, batch by batch and in order within a
/// batch, skipping empty batches. The first failure ends attach for good, so
/// a class that cannot be resolved leaves nothing registered.
#[derive(Debug)]
pub struct Attach {
    sizes: Vec<usize>,
    phase: AttachPhase,
}

/// The first registration at or after batch `b`: the first descriptor of the
/// first non-empty batch from `b` on, or done when there is none.
pub open spec fn first_registration(sizes: Seq<usize>, b: int) -> AttachPhase
    decreases sizes.len() - b,
{
    if b < 0 || b >= sizes.len() {
        AttachPhase::Registered
    } else if sizes[b] > 0 {
        AttachPhase::Registering { batch: b as usize, index: 0 }
    } else {
        first_registration(sizes, b + 1)
    }
}

pub open spec fn start_phase(sizes: Seq<usize>) -> AttachPhase {
    if sizes.len() == 0 {
        AttachPhase::Registered
    } else {
        AttachPhase::Resolving { batch: 0 }
    }
}

pub open spec fn action_spec(phase: AttachPhase) -> AttachAction {
    match phase {
        AttachPhase::Resolving { batch } => AttachAction::ResolveClass { batch },
        AttachPhase::Registering { batch, index } => AttachAction::Register { batch, index },
        AttachPhase::Registered => AttachAction::Finish { code: ATTACH_VERSION },
        AttachPhase::Failed => AttachAction::Finish { code: ATTACH_FAILED },
    }
}

/// The phase after the current action reported `ok`.
pub open spec fn step_spec(sizes: Seq<usize>, phase: AttachPhase, ok: bool) -> AttachPhase {
    match phase {
        AttachPhase::Resolving { batch } => if !ok {
            AttachPhase::Failed
        } else if batch + 1 < sizes.len() {
            AttachPhase::Resolving { batch: (batch + 1) as usize }
        } else {
            first_registration(sizes, 0)
        },
        AttachPhase::Registering { batch, index } => if !ok {
            AttachPhase::Failed
        } else if index + 1 < sizes[batch as int] {
            AttachPhase::Registering { batch, index: (index + 1) as usize }
        } else {
            first_registration(sizes, batch + 1)
        },
        _ => phase,
    }
}

/// The phase names a batch and a descriptor that exist.
pub open spec fn phase_wf(sizes: Seq<usize>, phase: AttachPhase) -> bool {
    match phase {
        AttachPhase::Resolving { batch } => batch < sizes.len(),
        AttachPhase::Registering { batch, index } => batch < sizes.len() && index
            < sizes[batch as int],
        _ => true,
    }
}

/// The phase after a run of results, one per action, in order.
pub open spec fn run(sizes: Seq<usize>, phase: AttachPhase, results: Seq<bool>) -> AttachPhase
    decreases results.len(),
{
    if results.len() == 0 {
        phase
    } else {
        run(sizes, step_spec(sizes, phase, results[0]), results.drop_first())
    }
}

proof fn lemma_first_registration_wf(sizes: Seq<usize>, b: int)
    requires
        sizes.len() <= usize::MAX,
    ensures
        phase_wf(sizes, first_registration(sizes, b)),
        first_registration(sizes, b) is Registering || first_registration(sizes, b)
            == AttachPhase::Registered,
    decreases sizes.len() - b,
{
    if 0 <= b < sizes.len() && sizes[b] == 0 {
        lemma_first_registration_wf(sizes, b + 1);
    }
}

impl Attach {
    pub closed spec fn sizes(&self) -> Seq<usize> {
        self.sizes@
    }

    pub closed spec fn phase(&self) -> AttachPhase {
        self.phase
    }

    pub open spec fn wf(&self) -> bool {
        phase_wf(self.sizes(), self.phase())
    }

    /// Attach over batches with the given descriptor counts, before any step.
    pub fn new(sizes: Vec<usize>) -> (r: Attach)
        ensures
            r.sizes() == sizes@,
            r.phase() == start_phase(sizes@),
            r.wf(),
    {
        let phase = if sizes.len() == 0 {
            AttachPhase::Registered
        } else {
            AttachPhase::Resolving { batch: 0 }
        };
        Attach { sizes, phase }
    }

    pub fn phase_now(&self) -> (r: AttachPhase)
        ensures
            r == self.phase(),
    {
        self.phase
    }

    /// What to do next.
    pub fn next_action(&self) -> (r: AttachAction)
        ensures
            r == action_spec(self.phase()),
    {
        match self.phase {
            AttachPhase::Resolving { batch } => AttachAction::ResolveClass { batch },
            AttachPhase::Registering { batch, index } => AttachAction::Register { batch, index },
            AttachPhase::Registered => AttachAction::Finish { code: ATTACH_VERSION },
            AttachPhase::Failed => AttachAction::Finish { code: ATTACH_FAILED },
        }
    }

    fn first_registration(&self, b: usize) -> (r: AttachPhase)
        requires
            self.sizes().len() <= usize::MAX,
        ensures
            r == first_registration(self.sizes(), b as int),
            phase_wf(self.sizes(), r),
    {
        let mut k = b;
        while k < self.sizes.len() && self.sizes[k] == 0
            invariant
                b <= k,
                first_registration(self.sizes(), k as int) == first_registration(
                    self.sizes(),
                    b as int,
                ),
            decreases self.sizes@.len() - k,
        {
            k += 1;
        }
        proof {
            lemma_first_registration_wf(self.sizes(), k as int);
        }
        if k < self.sizes.len() {
            AttachPhase::Registering { batch: k, index: 0 }
        } else {
            AttachPhase::Registered
        }
    }

    /// Takes in whether the action last asked for succeeded.
    pub fn on_result(&mut self, ok: bool)
        requires
            old(self).wf(),
        ensures
            final(self).sizes() == old(self).sizes(),
            final(self).phase() == step_spec(old(self).sizes(), old(self).phase(), ok),
            final(self).wf(),
    {
        let n = self.sizes.len();
        let next = match self.phase {
            AttachPhase::Resolving { batch } => {
                if !ok {
                    AttachPhase::Failed
                } else if batch < self.sizes.len() - 1 {
                    AttachPhase::Resolving { batch: batch + 1 }
                } else {
                    self.first_registration(0)
                }
            },
            AttachPhase::Registering { batch, index } => {
                if !ok {
                    AttachPhase::Failed
                } else if index + 1 < self.sizes[batch] {
                    AttachPhase::Registering { batch, index: index + 1 }
                } else {
                    self.first_registration(batch + 1)
                }
            },
            other => other,
        };
        self.phase = next;
    }
}

proof fn lemma_failed_absorbs(sizes: Seq<usize>, results: Seq<bool>)
    ensures
        run(sizes, AttachPhase::Failed, results) == AttachPhase::Failed,
    decreases results.len(),
{
    if results.len() > 0 {
        lemma_failed_absorbs(sizes, results.drop_first());
    }
}

/// Registration is fail-fast: once a resolution or a registration fails,
/// attach is failed whatever is reported after it, and only ever asks to
/// finish with the failure code, so no later descriptor is registered.
pub proof fn lemma_fail_fast(sizes: Seq<usize>, phase: AttachPhase, rest: Seq<bool>)
    requires
        phase_wf(sizes, phase),
        phase != AttachPhase::Registered,
    ensures
        run(sizes, phase, seq![false] + rest) == AttachPhase::Failed,
        action_spec(run(sizes, phase, seq![false] + rest)) == (AttachAction::Finish {
            code: ATTACH_FAILED,
        }),
{
    let results = seq![false] + rest;
    assert(results[0] == false);
    assert(results.drop_first() =~= rest);
    lemma_failed_absorbs(sizes, rest);
}

proof fn lemma_resolving_prefix(sizes: Seq<usize>, b: int, results: Seq<bool>)
    requires
        sizes.len() <= usize::MAX,
        0 <= b < sizes.len(),
    ensures
        run(sizes, AttachPhase::Resolving { batch: b as usize }, results) is Registering ==> {
            &&& results.len() >= sizes.len() - b
            &&& forall|k: int| 0 <= k < sizes.len() - b ==> #[trigger] results[k]
        },
    decreases results.len(),
{
    if results.len() > 0 {
        let phase = AttachPhase::Resolving { batch: b as usize };
        let rest = results.drop_first();
        if !results[0] {
            lemma_failed_absorbs(sizes, rest);
        } else if b + 1 < sizes.len() {
            lemma_resolving_prefix(sizes, b + 1, rest);
            assert(step_spec(sizes, phase, true) == AttachPhase::Resolving { batch: (b + 1) as usize });
            assert(run(sizes, phase, results) == run(
                sizes,
                AttachPhase::Resolving { batch: (b + 1) as usize },
                rest,
            ));
            if run(sizes, phase, results) is Registering {
                assert forall|k: int| 0 <= k < sizes.len() - b implies #[trigger] results[k] by {
                    if k > 0 {
                        assert(results[k] == rest[k - 1]);
                    }
                }
            }
        }
    }
}

/// Every class is resolved before anything is registered: attach asks to
/// register a descriptor only after as many successful steps as there are
/// batches, which are the resolutions of every batch's class, in order. A
/// class that cannot be resolved therefore fails attach with nothing
/// registered.
pub proof fn lemma_resolve_all_first(sizes: Seq<usize>, results: Seq<bool>)
    requires
        sizes.len() <= usize::MAX,
    ensures
        action_spec(run(sizes, start_phase(sizes), results)) is Register ==> {
            &&& results.len() >= sizes.len()
            &&& forall|k: int| 0 <= k < sizes.len() ==> #[trigger] results[k]
        },
        forall|k: int|
            0 <= k < sizes.len() && k <= results.len() && (forall|j: int|
                0 <= j < k ==> #[trigger] results[j]) ==> run(
                sizes,
                start_phase(sizes),
                results.subrange(0, k),
            ) == (AttachPhase::Resolving { batch: k as usize }),
{
    if sizes.len() > 0 {
        lemma_resolving_prefix(sizes, 0, results);
        assert forall|k: int|
            0 <= k < sizes.len() && k <= results.len() && (forall|j: int|
                0 <= j < k ==> #[trigger] results[j]) implies run(
            sizes,
            start_phase(sizes),
            results.subrange(0, k),
        ) == (AttachPhase::Resolving { batch: k as usize }) by {
            lemma_resolving_steps(sizes, 0, results.subrange(0, k));
        }
    }
}

proof fn lemma_resolving_steps(sizes: Seq<usize>, b: int, results: Seq<bool>)
    requires
        sizes.len() <= usize::MAX,
        0 <= b,
        b + results.len() < sizes.len(),
        forall|j: int| 0 <= j < results.len() ==> #[trigger] results[j],
    ensures
        run(sizes, AttachPhase::Resolving { batch: b as usize }, results) == (
        AttachPhase::Resolving { batch: (b + results.len()) as usize }),
    decreases results.len(),
{
    if results.len() > 0 {
        let rest = results.drop_first();
        assert(results[0]);
        assert forall|j: int| 0 <= j < rest.len() implies #[trigger] rest[j] by {
            assert(rest[j] == results[j + 1]);
        }
        assert(step_spec(sizes, AttachPhase::Resolving { batch: b as usize }, true) == AttachPhase::Resolving { batch: (b + 1) as usize });
        lemma_resolving_steps(sizes, b + 1, rest);
    }
}

} // verus!
