use vstd::prelude::*;

verus! {

/// The construction stages of the graphics context, from the first built to the last.
/// Teardown runs in the opposite direction.
#[derive(Clone, Copy, Debug, PartialEq, Eq, Structural)]
pub enum Stage {
    Context,
    Device,
    /// The swapchain and the views of its images.
    PresentationTargets,
    /// The render pass.
    RenderTargetDescription,
    /// Shader modules, pipeline layout and pipeline.
    Pipeline,
    Framebuffers,
    CommandRecorder,
    /// Semaphores and fence of a frame slot.
    FrameSync,
}

impl Stage {
    pub open spec fn spec_rank(self) -> nat {
        match self {
            Stage::Context => 0,
            Stage::Device => 1,
            Stage::PresentationTargets => 2,
            Stage::RenderTargetDescription => 3,
            Stage::Pipeline => 4,
            Stage::Framebuffers => 5,
            Stage::CommandRecorder => 6,
            Stage::FrameSync => 7,
        }
    }

    /// Position of the stage in the construction order.
    pub fn rank(&self) -> (r: u8)
        ensures
            r == self.spec_rank(),
    {
        match self {
            Stage::Context => 0,
            Stage::Device => 1,
            Stage::PresentationTargets => 2,
            Stage::RenderTargetDescription => 3,
            Stage::Pipeline => 4,
            Stage::Framebuffers => 5,
            Stage::CommandRecorder => 6,
            Stage::FrameSync => 7,
        }
    }
}

/// Why the ownership graph refused an operation.
#[derive(Clone, Copy, Debug, PartialEq, Eq, Structural)]
pub enum GraphError {
    /// A handle that was never issued or was already released.
    UnknownResource,
    /// A resource that a live resource still depends on.
    InUse,
    /// A dependency on a resource of a later construction stage.
    OutOfOrder,
}

/// Some live resource depends on `h`.
pub open spec fn in_use(deps: Seq<Seq<usize>>, alive: Seq<bool>, h: int) -> bool {
    exists|j: int| 0 <= j < alive.len() && alive[j] && (#[trigger] deps[j]).contains(h as usize)
}

/// The live set after releasing, newest first, every resource created after `h`.
pub open spec fn alive_up_to(alive: Seq<bool>, h: int) -> Seq<bool> {
    Seq::new(alive.len(), |j: int| alive[j] && j <= h)
}

/// Releasing the resources of a well-formed graph newest first never meets one that a live
/// resource still depends on: when `h` is released, everything created after it is gone,
/// and only those can depend on it.
pub proof fn lemma_reverse_release_never_in_use(g: ResourceGraph, h: usize)
    requires
        g.wf(),
        h < g.alive().len(),
    ensures
        !in_use(g.deps(), alive_up_to(g.alive(), h as int), h as int),
{
    let live = alive_up_to(g.alive(), h as int);
    if in_use(g.deps(), live, h as int) {
        let j = choose|j: int|
            0 <= j < live.len() && live[j] && (#[trigger] g.deps()[j]).contains(h);
        let k = choose|k: int| 0 <= k < g.deps()[j].len() && g.deps()[j][k] == h;
        assert(g.deps()[j][k] < j);
    }
}

/// The ownership graph of the graphics context: an arena of resources, each with the stage
/// it belongs to and the earlier resources it keeps alive. A handle is an index into it.
pub struct ResourceGraph {
    stages: Vec<Stage>,
    deps: Vec<Vec<usize>>,
    alive: Vec<bool>,
}

impl ResourceGraph {
    pub closed spec fn stages(&self) -> Seq<Stage> {
        self.stages@
    }

    pub closed spec fn deps(&self) -> Seq<Seq<usize>> {
        self.deps@.map_values(|d: Vec<usize>| d@)
    }

    pub closed spec fn alive(&self) -> Seq<bool> {
        self.alive@
    }

    /// Every resource depends only on resources created before it, of its own stage or an
    /// earlier one.
    pub open spec fn wf(&self) -> bool {
        &&& self.stages().len() == self.deps().len()
        &&& self.deps().len() == self.alive().len()
        &&& forall|i: int, k: int|
            0 <= i < self.deps().len() && 0 <= k < self.deps()[i].len() ==> {
                &&& (#[trigger] self.deps()[i][k]) < i
                &&& self.stages()[self.deps()[i][k] as int].spec_rank()
                    <= self.stages()[i].spec_rank()
            }
    }

    /// The dependencies name live resources only.
    pub open spec fn deps_known(&self, deps: Seq<usize>) -> bool {
        forall|k: int|
            0 <= k < deps.len() ==> (#[trigger] deps[k]) < self.alive().len()
                && self.alive()[deps[k] as int]
    }

    /// The dependencies belong to `stage` or to earlier stages.
    pub open spec fn deps_ordered(&self, stage: Stage, deps: Seq<usize>) -> bool {
        forall|k: int|
            0 <= k < deps.len() ==> self.stages()[(#[trigger] deps[k]) as int].spec_rank()
                <= stage.spec_rank()
    }

    pub fn new() -> (r: Self)
        ensures
            r.wf(),
            r.stages().len() == 0,
    {
        let r = ResourceGraph { stages: Vec::new(), deps: Vec::new(), alive: Vec::new() };
        assert(r.deps() =~= Seq::empty());
        r
    }

    /// How many handles were issued.
    pub fn len(&self) -> (r: usize)
        requires
            self.wf(),
        ensures
            r == self.alive().len(),
    {
        self.alive.len()
    }

    pub fn is_alive(&self, h: usize) -> (r: bool)
        requires
            self.wf(),
        ensures
            r == (h < self.alive().len() && self.alive()[h as int]),
    {
        h < self.alive.len() && self.alive[h]
    }

    /// Records a newly created resource of `stage` that keeps `deps` alive, and returns its
    /// handle.
    pub fn acquire(&mut self, stage: Stage, deps: Vec<usize>) -> (r: Result<usize, GraphError>)
        requires
            old(self).wf(),
        ensures
            final(self).wf(),
            match r {
                Ok(h) => {
                    &&& old(self).deps_known(deps@)
                    &&& old(self).deps_ordered(stage, deps@)
                    &&& h == old(self).alive().len()
                    &&& final(self).stages() == old(self).stages().push(stage)
                    &&& final(self).deps() == old(self).deps().push(deps@)
                    &&& final(self).alive() == old(self).alive().push(true)
                },
                Err(e) => {
                    &&& *final(self) == *old(self)
                    &&& !old(self).deps_known(deps@) ==> e == GraphError::UnknownResource
                    &&& old(self).deps_known(deps@) ==> e == GraphError::OutOfOrder
                        && !old(self).deps_ordered(stage, deps@)
                },
            },
    {
        let n = self.alive.len();
        let mut k: usize = 0;
        while k < deps.len()
            invariant
                self.wf(),
                n == self.alive@.len(),
                k <= deps@.len(),
                forall|m: int|
                    0 <= m < k ==> (#[trigger] deps@[m]) < n && self.alive@[deps@[m] as int],
            decreases deps@.len() - k,
        {
            let d = deps[k];
            if d >= n || !self.alive[d] {
                return Err(GraphError::UnknownResource);
            }
            k = k + 1;
        }
        let rank = stage.rank();
        let mut k: usize = 0;
        while k < deps.len()
            invariant
                self.wf(),
                n == self.alive@.len(),
                old(self).deps_known(deps@),
                *self == *old(self),
                rank == stage.spec_rank(),
                k <= deps@.len(),
                forall|m: int|
                    0 <= m < k ==> self.stages()[(#[trigger] deps@[m]) as int].spec_rank()
                        <= stage.spec_rank(),
            decreases deps@.len() - k,
        {
            let dk = deps[k];
            let dr = self.stages[dk].rank();
            if dr > rank {
                assert(dk == deps@[k as int]);
                return Err(GraphError::OutOfOrder);
            }
            k = k + 1;
        }
        let ghost old_deps = self.deps();
        let ghost dv = deps@;
        self.stages.push(stage);
        self.deps.push(deps);
        self.alive.push(true);
        assert(self.deps() =~= old_deps.push(dv));
        Ok(n)
    }

    /// Releases a live resource that no live resource depends on.
    pub fn release(&mut self, h: usize) -> (r: Result<(), GraphError>)
        requires
            old(self).wf(),
        ensures
            final(self).wf(),
            final(self).stages() == old(self).stages(),
            final(self).deps() == old(self).deps(),
            !(h < old(self).alive().len() && old(self).alive()[h as int]) ==> r == Err::<
                (),
                GraphError,
            >(GraphError::UnknownResource) && *final(self) == *old(self),
            h < old(self).alive().len() && old(self).alive()[h as int] && in_use(
                old(self).deps(),
                old(self).alive(),
                h as int,
            ) ==> r == Err::<(), GraphError>(GraphError::InUse) && *final(self) == *old(self),
            h < old(self).alive().len() && old(self).alive()[h as int] && !in_use(
                old(self).deps(),
                old(self).alive(),
                h as int,
            ) ==> r == Ok::<(), GraphError>(()) && final(self).alive() == old(self).alive().update(
                h as int,
                false,
            ),
    {
        if h >= self.alive.len() || !self.alive[h] {
            return Err(GraphError::UnknownResource);
        }
        let mut j: usize = 0;
        while j < self.alive.len()
            invariant
                self.wf(),
                *self == *old(self),
                h < self.alive@.len(),
                self.alive@[h as int],
                j <= self.alive@.len(),
                forall|m: int|
                    0 <= m < j && self.alive@[m] ==> !(#[trigger] self.deps()[m]).contains(h),
            decreases self.alive@.len() - j,
        {
            if self.alive[j] {
                let ghost dj = self.deps()[j as int];
                let mut k: usize = 0;
                while k < self.deps[j].len()
                    invariant
                        self.wf(),
                        *self == *old(self),
                        j < self.alive@.len(),
                        h < self.alive@.len(),
                        self.alive@[h as int],
                        self.alive@[j as int],
                        dj == self.deps()[j as int],
                        dj == self.deps@[j as int]@,
                        k <= dj.len(),
                        forall|m: int| 0 <= m < k ==> dj[m] != h,
                    decreases dj.len() - k,
                {
                    if self.deps[j][k] == h {
                        assert(dj[k as int] == h);
                        assert(in_use(self.deps(), self.alive(), h as int));
                        return Err(GraphError::InUse);
                    }
                    k = k + 1;
                }
                assert(!dj.contains(h));
            }
            j = j + 1;
        }
        assert(!in_use(self.deps(), self.alive(), h as int));
        self.alive.set(h, false);
        Ok(())
    }

    /// Releases every live resource, newest first, and returns the handles in the order they
    /// were released. Each release finds no live dependent, so none is refused; this also
    /// unwinds a construction that stopped part way.
    pub fn teardown(&mut self) -> (order: Vec<usize>)
        requires
            old(self).wf(),
        ensures
            final(self).wf(),
            final(self).stages() == old(self).stages(),
            final(self).deps() == old(self).deps(),
            final(self).alive().len() == old(self).alive().len(),
            forall|j: int| 0 <= j < final(self).alive().len() ==> !final(self).alive()[j],
            forall|k: int|
                0 <= k < order@.len() ==> (#[trigger] order@[k]) < old(self).alive().len()
                    && old(self).alive()[order@[k] as int],
            forall|h: int|
                0 <= h < old(self).alive().len() && old(self).alive()[h] ==> order@.contains(
                    h as usize,
                ),
            forall|k1: int, k2: int|
                0 <= k1 < k2 < order@.len() ==> order@[k1] > order@[k2],
            forall|k: int, j: int|
                0 <= k < order@.len() && 0 <= j < old(self).alive().len() && old(self).alive()[j]
                    && (#[trigger] old(self).deps()[j]).contains(#[trigger] order@[k])
                    ==> order@.subrange(0, k).contains(j as usize),
    {
        let ghost alive0 = self.alive();
        let n = self.alive.len();
        let mut order: Vec<usize> = Vec::new();
        let mut i: usize = n;
        while i > 0
            invariant
                self.wf(),
                self.stages() == old(self).stages(),
                self.deps() == old(self).deps(),
                alive0 == old(self).alive(),
                n == self.alive().len(),
                i <= n,
                forall|j: int| i <= j < n ==> !self.alive()[j],
                forall|j: int| 0 <= j < i ==> self.alive()[j] == alive0[j],
                forall|k: int|
                    0 <= k < order@.len() ==> i <= (#[trigger] order@[k]) < n
                        && alive0[order@[k] as int],
                forall|h: int| i <= h < n && alive0[h] ==> order@.contains(h as usize),
                forall|k1: int, k2: int|
                    0 <= k1 < k2 < order@.len() ==> order@[k1] > order@[k2],
            decreases i,
        {
            i = i - 1;
            if self.alive[i] {
                assert(!in_use(self.deps(), self.alive(), i as int)) by {
                    if in_use(self.deps(), self.alive(), i as int) {
                        let j = choose|j: int|
                            0 <= j < self.alive().len() && self.alive()[j] && (#[trigger] self.deps()[j]).contains(
                                i,
                            );
                        let k = choose|k: int|
                            0 <= k < self.deps()[j].len() && self.deps()[j][k] == i;
                        assert(self.deps()[j][k] < j);
                    }
                }
                let released = self.release(i);
                assert(released is Ok);
                let ghost before = order@;
                order.push(i);
                assert forall|h: int| i <= h < n && alive0[h] implies order@.contains(
                    h as usize,
                ) by {
                    if h == i {
                        assert(order@[before.len() as int] == i);
                    } else {
                        assert(before.contains(h as usize));
                        let k = choose|k: int| 0 <= k < before.len() && before[k] == h as usize;
                        assert(order@[k] == h as usize);
                    }
                }
            }
        }
        assert forall|k: int, j: int|
            0 <= k < order@.len() && 0 <= j < alive0.len() && alive0[j]
                && (#[trigger] old(self).deps()[j]).contains(#[trigger] order@[k]) implies order@.subrange(
            0,
            k,
        ).contains(j as usize) by {
            let m = choose|m: int|
                0 <= m < old(self).deps()[j].len() && old(self).deps()[j][m] == order@[k];
            assert(old(self).deps()[j][m] < j);
            assert(order@.contains(j as usize));
            let k2 = choose|k2: int| 0 <= k2 < order@.len() && order@[k2] == j as usize;
            if k2 >= k {
                assert(order@[k2] <= order@[k]);
            }
            assert(order@.subrange(0, k)[k2] == j as usize);
        }
        order
    }
}

} // verus!
