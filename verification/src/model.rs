//! Models of the scene: their attachments (mesh, transform, textures), their
//! place in the node tree, and the planning of global transform updates.
use vstd::prelude::*;

verus! {

/// A model's place in the node tree: its own slot and its parent's slot
/// (`u64::MAX` for a node without parent).
#[derive(Clone, Copy, PartialEq, Eq, Structural, Debug)]
pub struct NodeD {
    pub index_self: u64,
    pub index_parent: u64,
}

impl Default for NodeD {
    fn default() -> (n: Self)
        ensures
            n.index_self == 0,
            n.index_parent == u64::MAX,
    {
        NodeD { index_self: 0, index_parent: u64::MAX }
    }
}

/// A task the model executor can be asked to run.
#[derive(Clone, Copy, PartialEq, Eq, Structural, Debug)]
pub enum ModelTask {
    NoTask,
    /// Update the global transform of the model in the given slot.
    UpdateGlobalTransform(usize),
    EulerRotate,
    ResetQuaternion,
    Dispalce,
    Scale,
}

impl Default for ModelTask {
    fn default() -> (t: Self)
        ensures
            t == ModelTask::NoTask,
    {
        ModelTask::NoTask
    }
}

/// What the model executor keeps: the slot of its transform task queue.
#[derive(Clone, Copy, PartialEq, Eq, Structural, Debug)]
pub struct ModelExeAttachment {
    pub index_transform_task: u64,
}

impl Default for ModelExeAttachment {
    fn default() -> (a: Self)
        ensures
            a.index_transform_task == 0,
    {
        ModelExeAttachment { index_transform_task: 0 }
    }
}

/// The model executor.
#[derive(Clone, Copy, PartialEq, Eq, Structural, Debug)]
pub struct ModelE {
    pub attachment: ModelExeAttachment,
    pub id: u64,
}

impl Default for ModelE {
    fn default() -> (e: Self)
        ensures
            e.attachment.index_transform_task == 0,
            e.id == 0,
    {
        ModelE { attachment: ModelExeAttachment::default(), id: 0 }
    }
}

/// What a model refers to and its state: the slots of its mesh, transform
/// and textures (`u64::MAX` when unset), whether its global transform awaits
/// an update and whether it is active.
pub struct ModelAttachment {
    pub index_mesh: u64,
    pub index_transform: u64,
    pub index_textures: Vec<u64>,
    pub is_transform_update: bool,
    pub is_active: bool,
}

impl Default for ModelAttachment {
    fn default() -> (a: Self)
        ensures
            a.index_mesh == u64::MAX,
            a.index_transform == u64::MAX,
            a.index_textures@ == Seq::<u64>::empty(),
            a.is_transform_update,
            a.is_active,
    {
        ModelAttachment {
            index_mesh: u64::MAX,
            index_transform: u64::MAX,
            index_textures: Vec::new(),
            is_active: true,
            is_transform_update: true,
        }
    }
}

/// What a model holds, as plain values.
pub struct ModelView {
    pub id: u64,
    pub index_mesh: u64,
    pub index_transform: u64,
    pub index_textures: Seq<u64>,
    pub is_transform_update: bool,
    pub is_active: bool,
    pub node: NodeD,
}

/// A model of the scene.
pub struct ModelD {
    attachment: ModelAttachment,
    id: u64,
    node: NodeD,
}

impl View for ModelD {
    type V = ModelView;

    closed spec fn view(&self) -> ModelView {
        ModelView {
            id: self.id,
            index_mesh: self.attachment.index_mesh,
            index_transform: self.attachment.index_transform,
            index_textures: self.attachment.index_textures@,
            is_transform_update: self.attachment.is_transform_update,
            is_active: self.attachment.is_active,
            node: self.node,
        }
    }
}

/// The view of a freshly built model.
pub open spec fn fresh_model() -> ModelView {
    ModelView {
        id: u64::MAX,
        index_mesh: u64::MAX,
        index_transform: u64::MAX,
        index_textures: Seq::empty(),
        is_transform_update: true,
        is_active: true,
        node: NodeD { index_self: 0, index_parent: u64::MAX },
    }
}

impl Default for ModelD {
    fn default() -> (m: Self)
        ensures
            m@ == fresh_model(),
    {
        ModelD::build()
    }
}

impl ModelD {
    /// A model that refers to nothing yet and awaits its first transform update.
    pub fn build() -> (m: Self)
        ensures
            m@ == fresh_model(),
    {
        let m = ModelD { id: u64::MAX, node: NodeD::default(), attachment: ModelAttachment::default() };
        assert(m@.index_textures =~= Seq::<u64>::empty());
        m
    }

    /// The model as it is (nothing is read from metadata yet).
    pub fn build_from_meta(self) -> (m: Self)
        ensures
            m@ == self@,
    {
        self
    }

    /// Refers the model to the transform in slot `index_in`.
    pub fn set_transform(&mut self, index_in: u64)
        ensures
            final(self)@ == (ModelView { index_transform: index_in, ..old(self)@ }),
    {
        self.attachment.index_transform = index_in;
    }

    /// Refers the model to the mesh in slot `index_in`.
    pub fn set_mesh(&mut self, index_in: u64)
        ensures
            final(self)@ == (ModelView { index_mesh: index_in, ..old(self)@ }),
    {
        self.attachment.index_mesh = index_in;
    }

    /// Adds the texture in slot `index_in` to the model's textures.
    pub fn set_tex(&mut self, index_in: u64)
        ensures
            final(self)@ == (ModelView {
                index_textures: old(self)@.index_textures.push(index_in),
                ..old(self)@
            }),
    {
        self.attachment.index_textures.push(index_in);
    }

    /// The model's node.
    pub fn node_ref(&self) -> (n: &NodeD)
        ensures
            *n == self@.node,
    {
        &self.node
    }

    /// The model's node, to change it.
    pub fn node_mut(&mut self) -> (n: &mut NodeD)
        ensures
            *n == old(self)@.node,
            final(self)@ == (ModelView { node: *final(n), ..old(self)@ }),
    {
        &mut self.node
    }
}

/// The model in slot `i` of a model store whose slots all hold a model.
pub open spec fn model_at(models: Seq<Option<ModelD>>, i: int) -> ModelView {
    models[i].unwrap()@
}

/// Every slot of the store holds a model.
pub open spec fn all_present(models: Seq<Option<ModelD>>) -> bool {
    forall|i: int| 0 <= i < models.len() ==> (#[trigger] models[i]) is Some
}

/// Following parent links from slot `a`, at most `fuel` of them, reaches `target`.
pub open spec fn reaches(models: Seq<Option<ModelD>>, a: int, target: u64, fuel: nat) -> bool
    decreases fuel,
{
    if fuel == 0 || a < 0 || a >= models.len() {
        false
    } else {
        let p = model_at(models, a).node.index_parent;
        p == target || reaches(models, p as int, target, (fuel - 1) as nat)
    }
}

/// Slot `j` holds a node below the node in slot `target` in the node tree.
pub open spec fn is_subnode(models: Seq<Option<ModelD>>, j: int, target: u64) -> bool {
    reaches(models, j, target, models.len())
}

/// The slots among the first `k` that hold nodes below `target`, in increasing order.
pub open spec fn subnodes_upto(models: Seq<Option<ModelD>>, target: u64, k: nat) -> Seq<u64>
    decreases k,
{
    if k == 0 {
        seq![]
    } else {
        let before = subnodes_upto(models, target, (k - 1) as nat);
        if is_subnode(models, k - 1, target) {
            before.push((k - 1) as u64)
        } else {
            before
        }
    }
}

/// The slots holding nodes below `target`, in increasing order.
pub open spec fn subnodes(models: Seq<Option<ModelD>>, target: u64) -> Seq<u64> {
    subnodes_upto(models, target, models.len())
}

/// The own slots (`index_self`) of the models among the first `k` that await a
/// transform update, in slot order.
pub open spec fn flagged_selves(models: Seq<Option<ModelD>>, k: nat) -> Seq<u64>
    decreases k,
{
    if k == 0 {
        seq![]
    } else {
        let before = flagged_selves(models, (k - 1) as nat);
        let m = model_at(models, k - 1);
        if m.is_transform_update {
            before.push(m.node.index_self)
        } else {
            before
        }
    }
}

/// The slots whose global transform is updated when `count` models await an
/// update: the nodes below slot 0, then those below slot 1, and so on up to
/// slot `count - 1`.
pub open spec fn planned_children(models: Seq<Option<ModelD>>, count: nat) -> Seq<u64>
    decreases count,
{
    if count == 0 {
        seq![]
    } else {
        planned_children(models, (count - 1) as nat) + subnodes(models, (count - 1) as u64)
    }
}

/// One global transform update: the transform of `child` is recomputed from
/// that of `parent`.
#[derive(Clone, Copy, PartialEq, Eq, Structural, Debug)]
pub struct TransformUpdate {
    pub parent: u64,
    pub child: u64,
}

/// The updates for the given children, each from its parent.
pub open spec fn updates_for(models: Seq<Option<ModelD>>, children: Seq<u64>) -> Seq<TransformUpdate> {
    Seq::new(
        children.len(),
        |k: int|
            TransformUpdate {
                parent: model_at(models, children[k] as int).node.index_parent,
                child: children[k],
            },
    )
}

/// The updates planned for a store in which `count` models awaited an update.
pub open spec fn transform_plan(models: Seq<Option<ModelD>>, count: nat) -> Seq<TransformUpdate> {
    updates_for(models, planned_children(models, count))
}

fn parent_slot(models: &Vec<Option<ModelD>>, a: usize) -> (p: u64)
    requires
        a < models@.len(),
        all_present(models@),
    ensures
        p == model_at(models@, a as int).node.index_parent,
{
    let m = models[a].as_ref().unwrap();
    m.node_ref().index_parent
}

fn reaches_target(models: &Vec<Option<ModelD>>, start: usize, target: u64) -> (b: bool)
    requires
        all_present(models@),
    ensures
        b == is_subnode(models@, start as int, target),
{
    let n = models.len();
    let mut cur: u64 = start as u64;
    let mut fuel: usize = n;
    loop
        invariant
            n == models@.len(),
            all_present(models@),
            fuel <= n,
            is_subnode(models@, start as int, target) == reaches(models@, cur as int, target, fuel as nat),
        decreases fuel,
    {
        if fuel == 0 || cur >= n as u64 {
            return false;
        }
        let p = parent_slot(models, cur as usize);
        if p == target {
            return true;
        }
        cur = p;
        fuel -= 1;
    }
}

impl ModelD {
    /// The slots of the models whose nodes lie below the node in slot `index`
    /// (following parent links), in increasing order; an error when `index`
    /// is not a slot of the store.
    pub fn find_all_subnode_index(models: &Vec<Option<ModelD>>, index: u64) -> (r: Result<Vec<u64>, ()>)
        requires
            all_present(models@),
        ensures
            index >= models@.len() ==> r is Err,
            index < models@.len() ==> (r matches Ok(v) && v@ == subnodes(models@, index)),
    {
        let n = models.len();
        if index >= n as u64 {
            return Err(());
        }
        let mut found: Vec<u64> = Vec::new();
        let mut j: usize = 0;
        while j < n
            invariant
                j <= n,
                n == models@.len(),
                all_present(models@),
                found@ == subnodes_upto(models@, index, j as nat),
            decreases n - j,
        {
            if reaches_target(models, j, index) {
                found.push(j as u64);
            }
            j += 1;
        }
        Ok(found)
    }
}

impl ModelE {
    /// Sets the executor's id.
    pub fn set_id(&mut self, id_in: u64)
        ensures
            *final(self) == (ModelE { id: id_in, ..*old(self) }),
    {
        self.id = id_in;
    }

    /// The executor's id, to change it.
    pub fn id_mut(&mut self) -> (r: &mut u64)
        ensures
            *r == old(self).id,
            *final(self) == (ModelE { id: *final(r), ..*old(self) }),
    {
        &mut self.id
    }

    /// An executor with id 0 whose transform task queue is in slot 0.
    pub fn build() -> (e: Self)
        ensures
            e.attachment.index_transform_task == 0,
            e.id == 0,
    {
        ModelE { attachment: ModelExeAttachment::default(), id: 0 }
    }

    /// Puts an empty task queue into the slot of the executor's transform task
    /// queue, growing the store with empty slots up to it.
    pub fn link_task_queue(&self, tqin: &mut Vec<Option<Vec<ModelTask>>>)
        requires
            self.attachment.index_transform_task < usize::MAX,
        ensures
            ({
                let slot = self.attachment.index_transform_task as int;
                &&& final(tqin)@.len() == if slot < old(tqin)@.len() {
                    old(tqin)@.len() as int
                } else {
                    slot + 1
                }
                &&& (final(tqin)@[slot] matches Some(q) && q@ == Seq::<ModelTask>::empty())
                &&& forall|i: int|
                    0 <= i < final(tqin)@.len() && i != slot ==> #[trigger] final(tqin)@[i] == if i
                        < old(tqin)@.len() {
                        old(tqin)@[i]
                    } else {
                        None
                    }
            }),
    {
        let slot = self.attachment.index_transform_task as usize;
        let ghost init = tqin@;
        while tqin.len() <= slot
            invariant
                slot < usize::MAX,
                init.len() <= tqin@.len(),
                tqin@.len() <= if slot < init.len() { init.len() as int } else { slot + 1 },
                forall|i: int|
                    0 <= i < tqin@.len() ==> #[trigger] tqin@[i] == if i < init.len() {
                        init[i]
                    } else {
                        None
                    },
            decreases slot + 1 - tqin@.len(),
        {
            tqin.push(None);
        }
        tqin.set(slot, Some(Vec::new()));
    }

    /// Clears the update flag of every model that awaits a transform update
    /// and plans the global transform updates that follow: the nodes below
    /// slots 0, 1, .. (one slot for each model that awaited an update), each
    /// updated from its parent, in that order. Nothing else of the models changes.
    pub fn update_global_transform_sync(datum_model: &mut Vec<Option<ModelD>>) -> (plan: Vec<TransformUpdate>)
        requires
            all_present(old(datum_model)@),
        ensures
            final(datum_model)@.len() == old(datum_model)@.len(),
            all_present(final(datum_model)@),
            forall|i: int|
                0 <= i < final(datum_model)@.len() ==> #[trigger] model_at(final(datum_model)@, i) == (
                ModelView { is_transform_update: false, ..model_at(old(datum_model)@, i) }),
            plan@ == transform_plan(
                final(datum_model)@,
                flagged_selves(old(datum_model)@, old(datum_model)@.len()).len(),
            ),
    {
        let n = datum_model.len();
        let ghost init = datum_model@;
        let mut selves: Vec<u64> = Vec::new();
        let mut parent_count: usize = 0;
        let mut p: usize = 0;
        while p < n
            invariant
                p <= n,
                n == datum_model@.len(),
                n == init.len(),
                all_present(init),
                all_present(datum_model@),
                forall|i: int|
                    0 <= i < p ==> #[trigger] model_at(datum_model@, i) == (ModelView {
                        is_transform_update: false,
                        ..model_at(init, i)
                    }),
                forall|i: int| p <= i < n ==> #[trigger] datum_model@[i] == init[i],
                selves@ == flagged_selves(init, p as nat),
                parent_count == selves@.len(),
                parent_count <= p,
            decreases n - p,
        {
            let ghost pre = datum_model@;
            let mut slot: Option<ModelD> = None;
            datum_model.set_and_swap(p, &mut slot);
            let mut m = slot.unwrap();
            if m.attachment.is_transform_update {
                m.attachment.is_transform_update = false;
                selves.push(m.node.index_self);
                parent_count = parent_count + 1;
            }
            assert(m@ == (ModelView { is_transform_update: false, ..model_at(init, p as int) }));
            let ghost mid = datum_model@;
            datum_model.set(p, Some(m));
            assert forall|i: int| 0 <= i < p implies #[trigger] model_at(datum_model@, i) == (ModelView {
                is_transform_update: false,
                ..model_at(init, i)
            }) by {
                assert(datum_model@[i] == mid[i]);
                assert(mid[i] == pre[i]);
                assert(model_at(pre, i) == (ModelView { is_transform_update: false, ..model_at(init, i) }));
            }
            p += 1;
        }
        let mut children: Vec<u64> = Vec::new();
        if selves.len() > 0 {
            let mut i: usize = 0;
            while i < parent_count
                invariant
                    i <= parent_count,
                    parent_count <= n,
                    n == datum_model@.len(),
                    all_present(datum_model@),
                    children@ == planned_children(datum_model@, i as nat),
                decreases parent_count - i,
            {
                let subs = ModelD::find_all_subnode_index(datum_model, i as u64).unwrap();
                let ghost before = children@;
                let mut k: usize = 0;
                while k < subs.len()
                    invariant
                        k <= subs.len(),
                        children@ == before + subs@.subrange(0, k as int),
                    decreases subs.len() - k,
                {
                    children.push(subs[k]);
                    k += 1;
                    assert(children@ =~= before + subs@.subrange(0, k as int));
                }
                assert(subs@.subrange(0, k as int) =~= subs@);
                i += 1;
            }
        }
        proof {
            lemma_subnodes_in_range(datum_model@, parent_count as nat);
        }
        let mut plan: Vec<TransformUpdate> = Vec::new();
        let mut k: usize = 0;
        while k < children.len()
            invariant
                k <= children.len(),
                n == datum_model@.len(),
                all_present(datum_model@),
                children@ == planned_children(datum_model@, parent_count as nat),
                forall|t: int| 0 <= t < children@.len() ==> #[trigger] children@[t] < n,
                plan@ == updates_for(datum_model@, children@.subrange(0, k as int)),
            decreases children.len() - k,
        {
            let child = children[k];
            let parent = parent_slot(datum_model, child as usize);
            plan.push(TransformUpdate { parent, child });
            k += 1;
            assert(plan@ =~= updates_for(datum_model@, children@.subrange(0, k as int)));
        }
        assert(children@.subrange(0, k as int) =~= children@);
        plan
    }

    /// Rotation by Euler angles (not implemented: does nothing).
    pub fn euler_rotate() {
    }

    /// Rotation by quaternion (not implemented: does nothing).
    pub fn quat_rotate() {
    }

    /// Displacement (not implemented: does nothing).
    pub fn dispalce() {
    }

    /// Scaling (not implemented: does nothing).
    pub fn scale() {
    }

    /// Transform execution (not implemented: does nothing).
    pub fn exe_transform() {
    }
}

proof fn lemma_subnodes_upto_in_range(models: Seq<Option<ModelD>>, target: u64, k: nat)
    requires
        k <= models.len(),
        models.len() <= u64::MAX,
    ensures
        forall|t: int| 0 <= t < subnodes_upto(models, target, k).len() ==> #[trigger] subnodes_upto(models, target, k)[t] < k,
    decreases k,
{
    if k > 0 {
        lemma_subnodes_upto_in_range(models, target, (k - 1) as nat);
        let before = subnodes_upto(models, target, (k - 1) as nat);
        if is_subnode(models, k - 1, target) {
            assert forall|t: int| 0 <= t < before.push((k - 1) as u64).len() implies #[trigger] before.push((k - 1) as u64)[t] < k by {
                if t < before.len() {
                    assert(before.push((k - 1) as u64)[t] == before[t]);
                }
            }
        }
    }
}

proof fn lemma_subnodes_in_range(models: Seq<Option<ModelD>>, count: nat)
    requires
        models.len() <= u64::MAX,
    ensures
        forall|t: int| 0 <= t < planned_children(models, count).len() ==> #[trigger] planned_children(models, count)[t] < models.len(),
    decreases count,
{
    if count > 0 {
        lemma_subnodes_in_range(models, (count - 1) as nat);
        lemma_subnodes_upto_in_range(models, (count - 1) as u64, models.len());
        let a = planned_children(models, (count - 1) as nat);
        let b = subnodes(models, (count - 1) as u64);
        assert forall|t: int| 0 <= t < (a + b).len() implies #[trigger] (a + b)[t] < models.len() by {
            if t < a.len() {
                assert((a + b)[t] == a[t]);
            } else {
                assert((a + b)[t] == b[t - a.len()]);
            }
        }
    }
}

proof fn lemma_no_flagged(models: Seq<Option<ModelD>>, k: nat)
    requires
        k <= models.len(),
        forall|i: int| 0 <= i < models.len() ==> !(#[trigger] model_at(models, i)).is_transform_update,
    ensures
        flagged_selves(models, k).len() == 0,
    decreases k,
{
    if k > 0 {
        assert(!model_at(models, k - 1).is_transform_update);
        lemma_no_flagged(models, (k - 1) as nat);
    }
}

/// Once an update pass has run, a second pass has nothing left to do: when no
/// model awaits a transform update, the pass plans no update and leaves every
/// model as it was.
pub proof fn lemma_settled_scene_is_left_alone(models: Seq<Option<ModelD>>)
    requires
        all_present(models),
        forall|i: int| 0 <= i < models.len() ==> !(#[trigger] model_at(models, i)).is_transform_update,
    ensures
        transform_plan(models, flagged_selves(models, models.len()).len()) == Seq::<TransformUpdate>::empty(),
        forall|i: int|
            0 <= i < models.len() ==> (ModelView { is_transform_update: false, ..model_at(models, i) }) == #[trigger] model_at(models, i),
{
    lemma_no_flagged(models, models.len());
    assert(transform_plan(models, 0) =~= Seq::<TransformUpdate>::empty());
}

proof fn lemma_subnodes_upto_members(models: Seq<Option<ModelD>>, target: u64, k: nat)
    requires
        k <= models.len(),
        models.len() <= u64::MAX,
    ensures
        forall|j: int|
            0 <= j < k && #[trigger] is_subnode(models, j, target) ==> subnodes_upto(models, target, k).contains(
                j as u64,
            ),
        forall|t: int|
            0 <= t < subnodes_upto(models, target, k).len() ==> {
                &&& #[trigger] subnodes_upto(models, target, k)[t] < k
                &&& is_subnode(models, subnodes_upto(models, target, k)[t] as int, target)
            },
        forall|a: int, b: int|
            0 <= a < b < subnodes_upto(models, target, k).len() ==> #[trigger] subnodes_upto(models, target, k)[a]
                < #[trigger] subnodes_upto(models, target, k)[b],
    decreases k,
{
    if k > 0 {
        lemma_subnodes_upto_members(models, target, (k - 1) as nat);
        let before = subnodes_upto(models, target, (k - 1) as nat);
        let now = subnodes_upto(models, target, k);
        let x = (k - 1) as u64;
        if is_subnode(models, k - 1, target) {
            assert(now == before.push(x));
            assert(now[before.len() as int] == x);
            assert forall|j: int| 0 <= j < k && #[trigger] is_subnode(models, j, target) implies now.contains(
                j as u64,
            ) by {
                if j < k - 1 {
                    assert(before.contains(j as u64));
                    let t = choose|t: int| 0 <= t < before.len() && before[t] == j as u64;
                    assert(now[t] == j as u64);
                }
            }
            assert forall|t: int| 0 <= t < now.len() implies {
                &&& #[trigger] now[t] < k
                &&& is_subnode(models, now[t] as int, target)
            } by {
                if t < before.len() {
                    assert(now[t] == before[t]);
                }
            }
            assert forall|a: int, b: int| 0 <= a < b < now.len() implies #[trigger] now[a] < #[trigger] now[b] by {
                assert(now[a] == before[a]);
                if b < before.len() {
                    assert(now[b] == before[b]);
                }
            }
        } else {
            assert(now == before);
        }
    }
}

/// Finding the nodes below a node gives exactly the slots whose parent links
/// lead to it, whatever their place in the store: every slot below the node
/// is found, every slot found is a slot of the store below the node, and
/// they come in increasing order.
pub proof fn lemma_subnodes_are_the_descendants(models: Seq<Option<ModelD>>, target: u64)
    requires
        models.len() <= u64::MAX,
    ensures
        forall|j: int|
            0 <= j < models.len() && #[trigger] is_subnode(models, j, target) ==> subnodes(models, target).contains(
                j as u64,
            ),
        forall|t: int|
            0 <= t < subnodes(models, target).len() ==> {
                &&& #[trigger] subnodes(models, target)[t] < models.len()
                &&& is_subnode(models, subnodes(models, target)[t] as int, target)
            },
        forall|a: int, b: int|
            0 <= a < b < subnodes(models, target).len() ==> #[trigger] subnodes(models, target)[a]
                < #[trigger] subnodes(models, target)[b],
{
    lemma_subnodes_upto_members(models, target, models.len());
}

/// Slot `j` holds a node below one of the first `count` slots.
pub open spec fn below_first_slots(models: Seq<Option<ModelD>>, j: int, count: nat) -> bool {
    exists|i: int| 0 <= i < count && #[trigger] is_subnode(models, j, i as u64)
}

proof fn lemma_planned_children_members(models: Seq<Option<ModelD>>, count: nat)
    requires
        models.len() <= u64::MAX,
    ensures
        forall|i: int, j: int|
            0 <= i < count && 0 <= j < models.len() && #[trigger] is_subnode(models, j, i as u64)
                ==> planned_children(models, count).contains(j as u64),
        forall|t: int|
            0 <= t < planned_children(models, count).len() ==> {
                &&& #[trigger] planned_children(models, count)[t] < models.len()
                &&& below_first_slots(models, planned_children(models, count)[t] as int, count)
            },
    decreases count,
{
    if count > 0 {
        lemma_planned_children_members(models, (count - 1) as nat);
        let last = (count - 1) as u64;
        lemma_subnodes_upto_members(models, last, models.len());
        let a = planned_children(models, (count - 1) as nat);
        let b = subnodes(models, last);
        let c = planned_children(models, count);
        assert(c == a + b);
        assert forall|i: int, j: int|
            0 <= i < count && 0 <= j < models.len() && #[trigger] is_subnode(models, j, i as u64) implies c.contains(
            j as u64,
        ) by {
            if i < count - 1 {
                let t = choose|t: int| 0 <= t < a.len() && a[t] == j as u64;
                assert(c[t] == a[t]);
            } else {
                assert(i as u64 == last);
                assert(b.contains(j as u64));
                let t = choose|t: int| 0 <= t < b.len() && b[t] == j as u64;
                assert(c[a.len() + t] == b[t]);
            }
        }
        assert forall|t: int| 0 <= t < c.len() implies {
            &&& #[trigger] c[t] < models.len()
            &&& below_first_slots(models, c[t] as int, count)
        } by {
            if t < a.len() {
                assert(c[t] == a[t]);
                let i = choose|i: int| 0 <= i < count - 1 && #[trigger] is_subnode(models, a[t] as int, i as u64);
                assert(0 <= i < count && is_subnode(models, c[t] as int, i as u64));
            } else {
                assert(c[t] == b[t - a.len()]);
                let i: int = count - 1;
                assert(i as u64 == last);
                assert(0 <= i < count && is_subnode(models, c[t] as int, i as u64));
            }
        }
    }
}

/// The update pass updates every node below each of the first `count`
/// slots (one slot for each model that awaited an update), each from its
/// own parent, and nothing else: every update is of a node below one of
/// those slots, from that node's parent.
pub proof fn lemma_transform_plan_covers_the_subtrees(models: Seq<Option<ModelD>>, count: nat)
    requires
        models.len() <= u64::MAX,
    ensures
        forall|i: int, j: int|
            0 <= i < count && 0 <= j < models.len() && #[trigger] is_subnode(models, j, i as u64)
                ==> transform_plan(models, count).contains(
                TransformUpdate { parent: model_at(models, j).node.index_parent, child: j as u64 },
            ),
        forall|t: int|
            0 <= t < transform_plan(models, count).len() ==> {
                &&& #[trigger] transform_plan(models, count)[t].child < models.len()
                &&& transform_plan(models, count)[t].parent == model_at(
                    models,
                    transform_plan(models, count)[t].child as int,
                ).node.index_parent
                &&& below_first_slots(models, transform_plan(models, count)[t].child as int, count)
            },
{
    lemma_planned_children_members(models, count);
    let c = planned_children(models, count);
    let plan = transform_plan(models, count);
    assert(plan.len() == c.len());
    assert forall|i: int, j: int|
        0 <= i < count && 0 <= j < models.len() && #[trigger] is_subnode(models, j, i as u64) implies plan.contains(
        TransformUpdate { parent: model_at(models, j).node.index_parent, child: j as u64 },
    ) by {
        assert(c.contains(j as u64));
        let t = choose|t: int| 0 <= t < c.len() && c[t] == j as u64;
        assert((j as u64) as int == j);
        assert(plan[t] == TransformUpdate { parent: model_at(models, j).node.index_parent, child: j as u64 });
    }
    assert forall|t: int| 0 <= t < plan.len() implies {
        &&& #[trigger] plan[t].child < models.len()
        &&& plan[t].parent == model_at(models, plan[t].child as int).node.index_parent
        &&& below_first_slots(models, plan[t].child as int, count)
    } by {
        assert(plan[t].child == c[t]);
    }
}

/// Whether a slot holds a model that awaits a transform update.
pub open spec fn awaits_update() -> spec_fn(Option<ModelD>) -> bool {
    |m: Option<ModelD>| m.unwrap()@.is_transform_update
}

proof fn lemma_flagged_selves_count(models: Seq<Option<ModelD>>, k: nat)
    requires
        k <= models.len(),
    ensures
        flagged_selves(models, k).len() == models.take(k as int).filter(awaits_update()).len(),
    decreases k,
{
    reveal(Seq::filter);
    if k == 0 {
        assert(models.take(0).len() == 0);
    } else {
        lemma_flagged_selves_count(models, (k - 1) as nat);
        assert(models.take(k as int).drop_last() =~= models.take(k - 1));
        assert(models.take(k as int).last() == models[k - 1]);
    }
}

/// The update pass takes one slot for each model that awaits an update: the
/// number of models counted as awaiting is the number of models whose
/// update flag is set.
pub proof fn lemma_awaiting_models_are_counted(models: Seq<Option<ModelD>>)
    ensures
        flagged_selves(models, models.len()).len() == models.filter(awaits_update()).len(),
{
    lemma_flagged_selves_count(models, models.len());
    assert(models.take(models.len() as int) =~= models);
}

} // verus!
